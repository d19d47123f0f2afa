//! The result of one request, as every protocol adapter reports it, and the
//! builder that assembles it.

use vstd::prelude::*;
use vstd::string::StringExecFns;

verus! {

/// What one answered request looked like: the size of the body and the status line.
#[derive(Debug)]
pub struct RequestStats {
    pub bytes_processed: usize,
    pub status: String,
}

/// The mathematical value of a [`RequestStats`].
pub struct RequestStatsView {
    pub bytes_processed: nat,
    pub status: Seq<char>,
}

impl View for RequestStats {
    type V = RequestStatsView;

    open spec fn view(&self) -> RequestStatsView {
        RequestStatsView { bytes_processed: self.bytes_processed as nat, status: self.status@ }
    }
}

/// The message with which a builder refuses to build while `field` has no value.
pub open spec fn spec_uninitialized_field(field: Seq<char>) -> Seq<char> {
    "`"@ + field + "` must be initialized"@
}

/// Writes the message with which a builder refuses to build while `field` has no value.
pub fn uninitialized_field(field: &str) -> (message: String)
    ensures
        message@ == spec_uninitialized_field(field@),
{
    String::from_str("`").concat(field).concat("` must be initialized")
}

/// Assembles a [`RequestStats`] field by field. Both fields are required.
pub struct RequestStatsBuilder {
    bytes_processed: Option<usize>,
    status: Option<String>,
}

/// The mathematical value of a [`RequestStatsBuilder`]: what has been set so far.
pub struct RequestStatsBuilderView {
    pub bytes_processed: Option<nat>,
    pub status: Option<Seq<char>>,
}

impl RequestStatsBuilderView {
    /// The builder on which nothing has been set.
    pub open spec fn empty() -> Self {
        RequestStatsBuilderView { bytes_processed: None, status: None }
    }

    /// This builder after `bytes_processed` has been set to `value`.
    pub open spec fn with_bytes_processed(self, value: nat) -> Self {
        RequestStatsBuilderView { bytes_processed: Some(value), ..self }
    }

    /// This builder after `status` has been set to `value`.
    pub open spec fn with_status(self, value: Seq<char>) -> Self {
        RequestStatsBuilderView { status: Some(value), ..self }
    }

    /// The name of the first field, in the order of their declaration, that has no value.
    pub open spec fn missing_field(self) -> Option<Seq<char>> {
        if self.bytes_processed is None {
            Some("bytes_processed"@)
        } else if self.status is None {
            Some("status"@)
        } else {
            None
        }
    }

    /// What building gives: the record, or the message that names the first field
    /// without a value.
    pub open spec fn built(self) -> Result<RequestStatsView, Seq<char>> {
        match self.missing_field() {
            Some(field) => Err(spec_uninitialized_field(field)),
            None => Ok(
                RequestStatsView {
                    bytes_processed: self.bytes_processed->0,
                    status: self.status->0,
                },
            ),
        }
    }
}

impl View for RequestStatsBuilder {
    type V = RequestStatsBuilderView;

    closed spec fn view(&self) -> RequestStatsBuilderView {
        RequestStatsBuilderView {
            bytes_processed: match self.bytes_processed {
                Some(n) => Some(n as nat),
                None => None,
            },
            status: match self.status {
                Some(s) => Some(s@),
                None => None,
            },
        }
    }
}

impl Default for RequestStatsBuilder {
    /// A builder on which nothing has been set.
    fn default() -> (builder: Self)
        ensures
            builder@ == RequestStatsBuilderView::empty(),
    {
        RequestStatsBuilder { bytes_processed: None, status: None }
    }
}

impl RequestStatsBuilder {
    /// Sets the size of the response body.
    pub fn bytes_processed(&mut self, value: usize) -> (builder: &mut Self)
        ensures
            builder@ == old(self)@.with_bytes_processed(value as nat),
            *final(self) == *final(builder),
    {
        self.bytes_processed = Some(value);
        self
    }

    /// Sets the status line.
    pub fn status(&mut self, value: String) -> (builder: &mut Self)
        ensures
            builder@ == old(self)@.with_status(value@),
            *final(self) == *final(builder),
    {
        self.status = Some(value);
        self
    }

    /// Builds the record. Fails, naming the first field without a value, unless both
    /// fields have been set.
    pub fn build(&self) -> (result: Result<RequestStats, String>)
        ensures
            result is Ok <==> self@.missing_field() is None,
            result matches Ok(stats) ==> self@.built() == Ok::<RequestStatsView, Seq<char>>(
                stats@,
            ),
            result matches Err(message) ==> self@.built() == Err::<RequestStatsView, Seq<char>>(
                message@,
            ),
    {
        let bytes_processed = match self.bytes_processed {
            Some(n) => n,
            None => {
                return Err(uninitialized_field("bytes_processed"));
            },
        };
        let status = match &self.status {
            Some(s) => s.clone(),
            None => {
                return Err(uninitialized_field("status"));
            },
        };
        Ok(RequestStats { bytes_processed, status })
    }
}

/// A builder on which both fields have been set, in either order and however often,
/// builds, and the record holds exactly the values that were set last.
pub proof fn lemma_builder_round_trip(
    builder: RequestStatsBuilderView,
    bytes_processed: nat,
    status: Seq<char>,
)
    ensures
        builder.with_bytes_processed(bytes_processed).with_status(status).missing_field() is None,
        builder.with_bytes_processed(bytes_processed).with_status(status).built() == Ok::<
            RequestStatsView,
            Seq<char>,
        >(RequestStatsView { bytes_processed, status }),
        builder.with_status(status).with_bytes_processed(bytes_processed).built() == Ok::<
            RequestStatsView,
            Seq<char>,
        >(RequestStatsView { bytes_processed, status }),
{
}

} // verus!

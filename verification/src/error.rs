use vstd::prelude::*;

verus! {

/// Why a feed could not be ingested.
///
/// A failure is fatal for the one ingestion call that raised it and leaves
/// the catalog unchanged; it never poisons shows that were added earlier.
#[derive(Debug)]
pub enum FeedError {
    /// The transport collaborator could not retrieve the document; carries
    /// the transport's own message.
    Network(String),
    /// The retrieved bytes were not a well-formed RSS channel.
    Parse,
}

impl FeedError {
    /// A short label for the error, for hosts that want to display it.
    pub fn label(&self) -> (r: &str)
        ensures
            self is Network ==> r@ == "network error"@,
            self is Parse ==> r@ == "parse error"@,
    {
        match self {
            FeedError::Network(_) => "network error",
            FeedError::Parse => "parse error",
        }
    }
}

} // verus!

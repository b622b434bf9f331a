use vstd::prelude::*;

verus! {

/// The one error type of the core: every failure of a background job or of
/// a project operation is unified into it before it reaches a caller.
#[derive(Debug, Clone, PartialEq, Eq)]
pub enum AppError {
    /// The annotation-graph engine failed (I/O on a storage location,
    /// applying an update batch, serializing); carries its message.
    Graph { message: String },
    /// A corpus name has no storage location in the registry.
    MissingLocation { name: String },
}

/// The message an error is reported with.
pub open spec fn error_message_view(e: AppError) -> Seq<char> {
    match e {
        AppError::Graph { message } => message@,
        AppError::MissingLocation { name } => "Missing location for corpus "@ + name@,
    }
}

impl AppError {
    /// A human-readable message for notifications.
    pub fn message_text(&self) -> (r: String)
        ensures
            r@ == error_message_view(*self),
    {
        match self {
            AppError::Graph { message } => message.clone(),
            AppError::MissingLocation { name } => {
                let mut r = String::new();
                r.append("Missing location for corpus ");
                r.append(name.as_str());
                r
            },
        }
    }
}

} // verus!

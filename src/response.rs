use vstd::prelude::*;

verus! {

/// The envelope of every JSON answer: a status word, an optional message and
/// optional data.
#[derive(Debug)]
pub struct ApiResponse<T> {
    pub status: String,
    pub message: Option<String>,
    pub data: Option<T>,
}

impl<T> ApiResponse<T> {
    /// A successful answer carrying `data`.
    pub fn success(data: T) -> (r: Self)
        ensures
            r.status@ == "success"@,
            r.message is None,
            r.data == Some(data),
    {
        ApiResponse { status: "success".to_owned(), message: None, data: Some(data) }
    }

    /// A failed answer carrying `message` and no data.
    pub fn error(message: String) -> (r: ApiResponse<()>)
        ensures
            r.status@ == "error"@,
            r.message == Some(message),
            r.data is None,
    {
        ApiResponse { status: "error".to_owned(), message: Some(message), data: None }
    }
}

} // verus!

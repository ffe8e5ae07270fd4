use vstd::prelude::*;

verus! {

/// An error carried back to the HTTP layer: a status code and a message.
#[derive(Debug, Clone)]
pub struct CustomError {
    pub error_status_code: u16,
    pub error_message: String,
}

impl CustomError {
    /// Builds an error from its status code and message.
    pub fn new(error_status_code: u16, error_message: String) -> (res: CustomError)
        ensures
            res.error_status_code == error_status_code,
            res.error_message@ == error_message@,
    {
        CustomError { error_status_code, error_message }
    }

    /// The error as text: its message.
    pub fn to_string(&self) -> (res: String)
        ensures
            res@ == self.error_message@,
    {
        self.error_message.clone()
    }
}

} // verus!

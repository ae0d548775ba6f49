//! File upload: the request's form fields and the file object that comes back.
pub mod request;
pub mod response;

//! OCI container support.
pub mod oci;

//! Clients of the providers' services. A client never talks to the network
//! itself: it says which request comes next and what an answer means, and
//! its caller sends the requests.

pub mod adoptopenjdk_client;
pub mod azul_client;
pub mod github_client;
pub mod package_client;

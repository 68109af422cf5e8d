/// Calls of the contract that holds the chain's maximum protocol fee.
pub mod protocolfeelibrary;

pub mod responses;

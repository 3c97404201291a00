pub mod generate_aggregator;
pub mod generate_streaming;
pub mod logprob_conversion;

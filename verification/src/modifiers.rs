pub mod scale_bias;

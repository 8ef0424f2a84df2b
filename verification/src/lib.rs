// Motion pipeline: frame differencing, a scalar motion statistic, bitmap
// transport encoding, and the aggregates kept on the consumer side.
pub mod aggregator;
pub mod codec;
pub mod device;
pub mod difference;
pub mod pipeline;
pub mod raster;
pub mod statistic;

use crate::codec::{encode, encoded_bitmap, resampling_fits, EncodeError};
use crate::difference::{diff, difference_view, same_size, statistic_numerator};
use crate::raster::{Raster, RasterView};
use crate::statistic::Statistic;
use vstd::prelude::*;

verus! {

/// The faults that end the pipeline.
#[derive(Clone, Copy, Debug, PartialEq, Eq, Structural)]
pub enum PipelineError {
    /// No camera of the configured name was found within the enumeration bound.
    DeviceNotFound,
    /// A frame could not be read or decoded.
    AcquisitionFailure,
    /// A raster could not be encoded for transport.
    EncodingFailure,
    /// A frame arrived whose size differs from that of the frame before it.
    FrameSizeMismatch,
}

/// What the pipeline hands to the presenter for each frame.
pub struct ResultRecord {
    /// The frame, encoded for display.
    pub frame_bytes: Vec<u8>,
    /// The difference image, encoded for display.
    pub difference_bytes: Vec<u8>,
    /// The motion statistic of the frame against the one before it.
    pub statistic: Statistic,
}

/// Puts a record together from the two encodings and the statistic: a
/// record where both encodings succeeded, `EncodingFailure` otherwise.
pub fn assemble_record(
    frame: Result<Vec<u8>, EncodeError>,
    difference: Result<Vec<u8>, EncodeError>,
    statistic: Statistic,
) -> (result: Result<ResultRecord, PipelineError>)
    ensures
        result is Ok <==> frame is Ok && difference is Ok,
        result matches Ok(record) ==> {
            &&& frame == Ok::<Vec<u8>, EncodeError>(record.frame_bytes)
            &&& difference == Ok::<Vec<u8>, EncodeError>(record.difference_bytes)
            &&& record.statistic == statistic
        },
        result matches Err(fault) ==> fault == PipelineError::EncodingFailure,
{
    match frame {
        Ok(frame_bytes) => match difference {
            Ok(difference_bytes) => Ok(ResultRecord { frame_bytes, difference_bytes, statistic }),
            Err(_) => Err(PipelineError::EncodingFailure),
        },
        Err(_) => Err(PipelineError::EncodingFailure),
    }
}

/// Whether a frame of this content can be processed against `previous`:
/// the two have one size and both the frame and the difference image can be
/// encoded.
pub open spec fn processable(current: RasterView, previous: RasterView) -> bool {
    &&& same_size(current, previous)
    &&& resampling_fits(current.width)
    &&& encoded_bitmap(current) is Some
    &&& encoded_bitmap(difference_view(current, previous)) is Some
}

/// The state of the pipeline's worker: the frame before the current one.
pub struct Pipeline {
    previous: Raster,
}

impl Pipeline {
    /// The frame that the next one is compared with.
    pub closed spec fn previous(&self) -> RasterView {
        self.previous@
    }

    pub closed spec fn wf(&self) -> bool {
        self.previous.wf()
    }

    /// A pipeline for frames of the given size, which starts from a black
    /// frame; `None` where a frame of that size cannot be addressed.
    pub fn new(width: u32, height: u32) -> (result: Option<Pipeline>)
        ensures
            result is Some <==> width * height * 3 <= usize::MAX,
            result matches Some(pipeline) ==> pipeline.wf() && pipeline.previous()
                == RasterView::black(width as nat, height as nat),
    {
        match Raster::new(width, height) {
            Some(previous) => Some(Pipeline { previous }),
            None => None,
        }
    }

    /// Processes one frame: compares it with the frame before it, encodes
    /// the frame and the difference image, and keeps the frame for the next
    /// comparison. On an error the pipeline keeps the frame it had.
    pub fn process(&mut self, current: Raster) -> (result: Result<ResultRecord, PipelineError>)
        requires
            old(self).wf(),
            current.wf(),
        ensures
            final(self).wf(),
            result is Ok <==> processable(current@, old(self).previous()),
            result matches Ok(record) ==> {
                &&& final(self).previous() == current@
                &&& record.statistic.numerator == statistic_numerator(
                    current@,
                    old(self).previous(),
                )
                &&& encoded_bitmap(current@) == Some(record.frame_bytes@)
                &&& encoded_bitmap(difference_view(current@, old(self).previous())) == Some(
                    record.difference_bytes@,
                )
            },
            result matches Err(fault) ==> {
                &&& final(self).previous() == old(self).previous()
                &&& fault == (if same_size(current@, old(self).previous()) {
                    PipelineError::EncodingFailure
                } else {
                    PipelineError::FrameSizeMismatch
                })
            },
    {
        match diff(&current, &self.previous) {
            Err(_) => Err(PipelineError::FrameSizeMismatch),
            Ok((image, statistic)) => {
                let frame = encode(&current);
                if frame.is_err() {
                    return Err(PipelineError::EncodingFailure);
                }
                let difference = encode(&image);
                let result = assemble_record(frame, difference, statistic);
                if result.is_ok() {
                    self.previous = current;
                }
                result
            },
        }
    }
}

} // verus!

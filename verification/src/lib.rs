//! An image-editing core: a raster image type, a configurable chain of
//! pixel-space modifiers, a preview pipeline with cached derived images,
//! and a background-resize job state machine.

pub mod blur;
pub mod fixedpoint;
pub mod geometry;
pub mod image;
pub mod media;
pub mod modifier;
pub mod pipeline;
pub mod pixels;
pub mod resize_job;
pub mod sizefmt;
pub mod support;
pub mod timing;

pub use geometry::fit_into;
pub use geometry::Size;
pub use image::DecodeError;
pub use image::FilterKind;
pub use image::ImageView;
pub use image::RasterImage;
pub use media::MultimediaFileLoadingError;
pub use media::TrackPanelResult;
pub use media::TrackSegment;
pub use modifier::Modifier;
pub use modifier::ModifierKind;
pub use modifier::ModifierParameter;
pub use pipeline::ModifierPipeline;
pub use pixels::GradingMatrix;
pub use resize_job::ResizeJob;
pub use resize_job::ResizeJobState;
pub use sizefmt::format_size;
pub use support::EditorResult;
pub use support::ModifierResponse;
pub use support::RequestRepaintEvent;
pub use timing::Tick;
pub use timing::Tickable;

//! Batch rendering of words into images, one per font: the canvas geometry,
//! the blank-render test, font discovery rules and the per-word file plan.

pub mod batch;
pub mod canvas;
pub mod discovery;
pub mod font;
pub mod pipeline;
pub mod postprocess;
pub mod render;
pub mod words;

pub use batch::{DirEntryInfo, ImgFont, RunError, RunPlan};
pub use canvas::{is_not_empty, Canvas};
pub use discovery::{
    is_font_file, is_supported_extension, plan_entry, split_file_name, EntryKind, EntryPlan,
};
pub use font::{load_font, LoadError};
pub use pipeline::{
    classify_render, process_font, process_word, word_actions, word_job, FileAction, FontJob,
    RenderState, WordJob,
};
pub use postprocess::{decimal_string, post_process_arguments};
pub use render::{generate_image_for_word, text_offset, MAX_FONT_SIZE, MAX_WIDTH};
pub use words::parse_word_list;

//! Event-processing core of a Pinyin input-method engine: key decoding,
//! mode switching, the composing buffer and the paged candidate session.

pub mod keys;
pub mod text;
pub mod mode_switcher;
pub mod candidate;
pub mod sink;
pub mod preedit;
pub mod candidate_service;
pub mod number_service;
pub mod symbol_service;
pub mod dispatcher;
pub mod pipeline;

//! Argument typing, address choice and line formatting for a small
//! Open Sound Control (OSC) over UDP test tool.
mod argument;
mod infer;
mod message;
mod receiver;
mod report;
mod resolve;
mod text;

pub use argument::{
    all_supported, argument_text, blob_text, first_unsupported, is_supported, models, tag_of,
    tags_of, type_tags, Argument, ArgumentModel, UnsupportedArgumentType,
};
pub use infer::{
    ascii_lower, beyond_single_range, digits_value, equals_ignoring_case, f32_bits_infinite,
    f32_bits_zero, f64_bits_finite, f64_bits_zero, i32_literal, infer_argument, infer_arguments,
    inferred, is_ascii_digit, is_false_word, is_true_word, lemma_inference_total, FloatReadings,
};
pub use message::{build_message, sample_message, Message};
pub use receiver::{
    action_view, event_is_well_formed, event_well_formed, receiver_reaction, receiver_step, receiver_step_now,
    ReceiveEvent, ReceiverAction,
};
pub use report::{
    argument_texts, bundle_line, bundle_line_text, lemma_empty_message_line, line_head,
    message_line, message_line_text, sample_line, sample_line_now, sample_line_text, sent_line,
    sent_line_now, sent_line_text, tags_section, views,
};
pub use resolve::{
    choose_address, chosen_address, lemma_failed_lookup_keeps_host, lemma_literal_address_kept,
    lookup_view, Candidate,
};
pub use text::{digits, int_text, joined};

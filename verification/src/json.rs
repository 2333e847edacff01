//! The JSON text that goes over the wire: how it is written and how it is
//! read.

pub mod member;
pub mod number;
pub mod read;
pub mod write;

pub use member::JsonMember;
pub use member::Member;
pub use member::find_member;
pub use member::lemma_member_value_concat;
pub use member::lemma_member_value_optional;
pub use member::lemma_member_value_step;
pub use member::member_value;
pub use member::members_view;
pub use member::optional_member;
pub use member::single_member;
pub use member::texts_view;
pub use number::Decimal;
pub use number::decimal_digits;
pub use number::decimal_text;
pub use number::digit_char;
pub use number::trailing_digits;
pub use read::json_array_parse;
pub use read::json_object_parse;
pub use read::json_optional_string_parse;
pub use read::json_optional_u64_parse;
pub use read::json_string_parse;
pub use read::json_u64_parse;
pub(crate) use read::read_optional_string;
pub(crate) use read::read_optional_u64;
pub(crate) use read::read_u64;
pub(crate) use read::split_array;
pub(crate) use read::split_object;
pub(crate) use read::unquote;
pub use write::array_text;
pub use write::comma_joined;
pub use write::json_string_literal;
pub use write::member_text;
pub use write::object_text;
pub(crate) use write::quote;
pub use write::render_array;
pub use write::render_object;
pub use write::string_value;

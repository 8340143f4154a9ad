//! A light utility helping with unix mode representation, with strong
//! types to avoid misusing constants.
//!
//! A [`Mode`] wraps the classic permission bits (`rwxrwxrwx` plus the
//! setuid, setgid and sticky bits). It can be built from a raw integer,
//! combined bitwise, rendered as the familiar 9-character string, and
//! parsed back from that string with positional error reporting.

mod mode;

pub use mode::ALL;
pub use mode::Class;
pub use mode::EXEC;
pub use mode::EXTRA;
pub use mode::ExtraPermission;
pub use mode::GROUP;
pub use mode::Mode;
pub use mode::OTHERS;
pub use mode::ParseError;
pub use mode::Permission;
pub use mode::READ;
pub use mode::SETGID;
pub use mode::SETUID;
pub use mode::STICKY;
pub use mode::USER;
pub use mode::WRITE;
pub use mode::all_exec;
pub use mode::all_read;
pub use mode::all_write;
pub use mode::cell_value;
pub use mode::display_of;
pub use mode::exec_char;
pub use mode::flag_char;
pub use mode::group_exec;
pub use mode::group_read;
pub use mode::group_write;
pub use mode::lemma_class_perm_inverse;
pub use mode::lemma_display_parse_round_trip;
pub use mode::lemma_has_reflexive;
pub use mode::lemma_value_round_trip;
pub use mode::others_exec;
pub use mode::others_read;
pub use mode::others_write;
pub use mode::parsed_prefix;
pub use mode::parsed_value;
pub use mode::spec_has;
pub use mode::valid_cell_char;
pub use mode::user_exec;
pub use mode::user_read;
pub use mode::user_write;

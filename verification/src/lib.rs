//! Messages, reports and their parts, as exchanged between the tools of a
//! toolgraph, together with the operations of the library's C interface on
//! them, stated and proved over mathematical views.

pub mod ast;
pub mod contents;
pub mod language;
pub mod msg;
pub mod region;
pub mod report;

pub use region::{region_get_begin, region_get_end, region_new, Region};
pub use contents::{
    contents_add_entry, contents_add_text, contents_count_entries, contents_get_entry,
    contents_get_text, contents_is_empty, contents_is_entries, contents_is_text,
    contents_new_entries, contents_new_text, Contents, ContentsView,
};
pub use language::{language_get_name, language_new, language_set_name, Language};
pub use ast::{
    ast_add_child, ast_clear_children, ast_clear_data, ast_count_children, ast_get_child,
    ast_get_data, ast_get_name, ast_new, ast_set_data, Ast, AstView,
};
pub use msg::{
    msg_add_region, msg_clear_regions, msg_count_regions, msg_get_ast, msg_get_contents,
    msg_get_kind, msg_get_language, msg_get_origin, msg_get_process, msg_get_region,
    msg_get_request_number, msg_get_sent_at, msg_new, msg_set_ast, msg_set_contents,
    msg_set_kind, msg_set_language, msg_set_origin, msg_set_process, msg_set_request_number,
    Msg, MsgPart, MsgView,
};
pub use report::{
    report_get_action, report_get_command, report_get_duration_nanos, report_get_process,
    report_get_request_number, report_new, report_set_action, report_set_command,
    report_set_duration_nanos, report_set_process, report_set_request_number, Report,
    ReportPart, ReportView,
};

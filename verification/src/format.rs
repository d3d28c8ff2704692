//! Compact text rendering of ast-index JSON responses.
//!
//! Each tool's response shape has a renderer that writes one line per item;
//! a response that does not have the expected shape falls back to compact
//! JSON, and text that is not JSON at all passes through.
use vstd::prelude::*;
use crate::json::{Json, JsonView, field_array, field_i64, field_str, i64_or, ref_view, spec_get, str_or, str_view, text, views};
use crate::jsontext::{json_from_str, json_to_string, spec_json_from_str, spec_json_to_string};
use crate::size::{push_mib, spec_mib_text};
use crate::text::{push_decimal, spec_decimal, spec_trim_end, spec_truncate, str_eq, trim_end, truncate};

verus! {

/// Concatenation of `f` over `items`, in order.
pub open spec fn concat_map(items: Seq<JsonView>, f: spec_fn(JsonView) -> Seq<char>) -> Seq<char>
    decreases items.len(),
{
    if items.len() == 0 {
        Seq::empty()
    } else {
        concat_map(items.drop_last(), f) + f(items.last())
    }
}

/// `{indent}  {detail}` with the detail trimmed and cut to 80 characters,
/// when there is a non-empty detail; nothing otherwise.
pub open spec fn spec_detail_line(detail: Option<Seq<char>>, indent: Seq<char>) -> Seq<char> {
    match detail {
        Some(d) => if d.len() > 0 {
            indent + "  "@ + spec_truncate(d, 80) + "\n"@
        } else {
            Seq::empty()
        },
        None => Seq::empty(),
    }
}

/// `{indent}{name} [{kind}] {path}:{line}`, then the trimmed signature,
/// cut to 80 characters, on a second line when there is a non-empty one.
pub open spec fn spec_symbol_line(s: JsonView, indent: Seq<char>) -> Seq<char> {
    let name = str_or(field_str(s, "name"@), "?"@);
    let kind = str_or(field_str(s, "kind"@), "?"@);
    let path = str_or(field_str(s, "path"@), "?"@);
    let line = i64_or(field_i64(s, "line"@), 0);
    indent + name + " ["@ + kind + "] "@ + path + ":"@ + spec_decimal(line as int) + "\n"@
        + spec_detail_line(field_str(s, "signature"@), indent)
}

/// `{indent}{path}:{line}`, then the trimmed context, cut to 80 characters,
/// on a second line when there is a non-empty one.
pub open spec fn spec_ref_line(r: JsonView, indent: Seq<char>) -> Seq<char> {
    let path = str_or(field_str(r, "path"@), "?"@);
    let line = i64_or(field_i64(r, "line"@), 0);
    indent + path + ":"@ + spec_decimal(line as int) + "\n"@ + spec_detail_line(
        field_str(r, "context"@),
        indent,
    )
}

/// `{indent}{f}` for a string item; nothing for any other item.
pub open spec fn spec_file_line(f: JsonView, indent: Seq<char>) -> Seq<char> {
    match f {
        JsonView::Str(s) => indent + s + "\n"@,
        _ => Seq::empty(),
    }
}

/// The string member `key` of `v`, or `default`.
fn field_str_or<'a>(v: &'a Json, key: &str, default: &'a str) -> (r: &'a str)
    ensures
        r@ == str_or(field_str(v@, key@), default@),
{
    match v.get(key) {
        Some(x) => match x.as_str() {
            Some(t) => t,
            None => default,
        },
        None => default,
    }
}

/// The integer member `key` of `v`, or `default`.
fn field_i64_or(v: &Json, key: &str, default: i64) -> (r: i64)
    ensures
        r == i64_or(field_i64(v@, key@), default),
{
    match v.get(key) {
        Some(x) => match x.as_i64() {
            Some(t) => t,
            None => default,
        },
        None => default,
    }
}

/// The string member `key` of `v`.
fn field_str_opt<'a>(v: &'a Json, key: &str) -> (r: Option<&'a str>)
    ensures
        str_view(r) == field_str(v@, key@),
{
    match v.get(key) {
        Some(x) => x.as_str(),
        None => None,
    }
}

/// The integer member `key` of `v`.
fn field_i64_opt(v: &Json, key: &str) -> (r: Option<i64>)
    ensures
        r == field_i64(v@, key@),
{
    match v.get(key) {
        Some(x) => x.as_i64(),
        None => None,
    }
}

/// Appends the detail line of an item.
fn write_detail_line(detail: Option<&str>, indent: &str, out: &mut String)
    ensures
        final(out)@ == old(out)@ + spec_detail_line(str_view(detail), indent@),
{
    match detail {
        Some(d) => {
            if d.unicode_len() > 0 {
                out.append(indent);
                out.append("  ");
                let t = truncate(d, 80);
                out.append(t.as_str());
                out.append("\n");
                assert(out@ =~= old(out)@ + spec_detail_line(str_view(detail), indent@));
            } else {
                assert(out@ =~= old(out)@ + spec_detail_line(str_view(detail), indent@));
            }
        },
        None => {
            assert(out@ =~= old(out)@ + spec_detail_line(str_view(detail), indent@));
        },
    }
}

/// Appends the line(s) of a symbol.
pub fn write_symbol_line(s: &Json, indent: &str, out: &mut String)
    ensures
        final(out)@ == old(out)@ + spec_symbol_line(s@, indent@),
{
    let name = field_str_or(s, "name", "?");
    let kind = field_str_or(s, "kind", "?");
    let path = field_str_or(s, "path", "?");
    let line = field_i64_or(s, "line", 0);
    out.append(indent);
    out.append(name);
    out.append(" [");
    out.append(kind);
    out.append("] ");
    out.append(path);
    out.append(":");
    push_decimal(out, line);
    out.append("\n");
    write_detail_line(field_str_opt(s, "signature"), indent, out);
    assert(out@ =~= old(out)@ + spec_symbol_line(s@, indent@));
}

/// Appends the line(s) of a reference.
pub fn write_ref_line(r: &Json, indent: &str, out: &mut String)
    ensures
        final(out)@ == old(out)@ + spec_ref_line(r@, indent@),
{
    let path = field_str_or(r, "path", "?");
    let line = field_i64_or(r, "line", 0);
    out.append(indent);
    out.append(path);
    out.append(":");
    push_decimal(out, line);
    out.append("\n");
    write_detail_line(field_str_opt(r, "context"), indent, out);
    assert(out@ =~= old(out)@ + spec_ref_line(r@, indent@));
}

/// The kinds of per-item lines that the renderers write.
pub enum LineKind {
    /// A bare path.
    File,
    /// A symbol definition.
    Symbol,
    /// A reference with its context.
    Ref,
    /// A symbol name with its usage count.
    UsageCount,
    /// A content match with its snippet.
    Content,
    /// An import with its signature.
    Import,
}

/// `{indent}{name} ×{count}` for an item with both; nothing otherwise.
pub open spec fn spec_usage_count_line(r: JsonView, indent: Seq<char>) -> Seq<char> {
    match (field_str(r, "name"@), field_i64(r, "usage_count"@)) {
        (Some(name), Some(count)) => indent + name + " ×"@ + spec_decimal(count as int) + "\n"@,
        _ => Seq::empty(),
    }
}

/// `{indent}{path}:{line}  {snippet}` with the snippet trimmed and cut to 100
/// characters, for an item with all three; nothing otherwise.
pub open spec fn spec_content_line(m: JsonView, indent: Seq<char>) -> Seq<char> {
    match (field_str(m, "path"@), field_i64(m, "line"@), field_str(m, "content"@)) {
        (Some(path), Some(line), Some(snippet)) => indent + path + ":"@ + spec_decimal(line as int)
            + "  "@ + spec_truncate(snippet, 100) + "\n"@,
        _ => Seq::empty(),
    }
}

/// `{indent}{path}:{line}`, followed by two spaces and the trimmed signature
/// cut to 80 characters when the import has a non-empty one, for an item with
/// a path and a line; nothing otherwise.
pub open spec fn spec_import_line(i: JsonView, indent: Seq<char>) -> Seq<char> {
    match (field_str(i, "path"@), field_i64(i, "line"@)) {
        (Some(path), Some(line)) => {
            let sig = str_or(field_str(i, "signature"@), ""@);
            let head = indent + path + ":"@ + spec_decimal(line as int);
            if sig.len() == 0 {
                head + "\n"@
            } else {
                head + "  "@ + spec_truncate(sig, 80) + "\n"@
            }
        },
        _ => Seq::empty(),
    }
}

/// The text that one item of the given kind contributes.
pub open spec fn spec_item_line(kind: LineKind, item: JsonView, indent: Seq<char>) -> Seq<char> {
    match kind {
        LineKind::File => spec_file_line(item, indent),
        LineKind::Symbol => spec_symbol_line(item, indent),
        LineKind::Ref => spec_ref_line(item, indent),
        LineKind::UsageCount => spec_usage_count_line(item, indent),
        LineKind::Content => spec_content_line(item, indent),
        LineKind::Import => spec_import_line(item, indent),
    }
}

pub open spec fn item_lines(kind: LineKind, indent: Seq<char>) -> spec_fn(JsonView) -> Seq<char> {
    |item: JsonView| spec_item_line(kind, item, indent)
}

fn write_file_line(f: &Json, indent: &str, out: &mut String)
    ensures
        final(out)@ == old(out)@ + spec_file_line(f@, indent@),
{
    match f.as_str() {
        Some(s) => {
            out.append(indent);
            out.append(s);
            out.append("\n");
            assert(out@ =~= old(out)@ + spec_file_line(f@, indent@));
        },
        None => {
            assert(out@ =~= old(out)@ + spec_file_line(f@, indent@));
        },
    }
}

fn write_usage_count_line(r: &Json, indent: &str, out: &mut String)
    ensures
        final(out)@ == old(out)@ + spec_usage_count_line(r@, indent@),
{
    match (field_str_opt(r, "name"), field_i64_opt(r, "usage_count")) {
        (Some(name), Some(count)) => {
            out.append(indent);
            out.append(name);
            out.append(" ×");
            push_decimal(out, count);
            out.append("\n");
            assert(out@ =~= old(out)@ + spec_usage_count_line(r@, indent@));
        },
        _ => {
            assert(out@ =~= old(out)@ + spec_usage_count_line(r@, indent@));
        },
    }
}

fn write_content_line(m: &Json, indent: &str, out: &mut String)
    ensures
        final(out)@ == old(out)@ + spec_content_line(m@, indent@),
{
    match (field_str_opt(m, "path"), field_i64_opt(m, "line"), field_str_opt(m, "content")) {
        (Some(path), Some(line), Some(snippet)) => {
            out.append(indent);
            out.append(path);
            out.append(":");
            push_decimal(out, line);
            out.append("  ");
            let t = truncate(snippet, 100);
            out.append(t.as_str());
            out.append("\n");
            assert(out@ =~= old(out)@ + spec_content_line(m@, indent@));
        },
        _ => {
            assert(out@ =~= old(out)@ + spec_content_line(m@, indent@));
        },
    }
}

fn write_import_line(i: &Json, indent: &str, out: &mut String)
    ensures
        final(out)@ == old(out)@ + spec_import_line(i@, indent@),
{
    match (field_str_opt(i, "path"), field_i64_opt(i, "line")) {
        (Some(path), Some(line)) => {
            let sig = field_str_or(i, "signature", "");
            out.append(indent);
            out.append(path);
            out.append(":");
            push_decimal(out, line);
            if sig.unicode_len() == 0 {
                out.append("\n");
            } else {
                out.append("  ");
                let t = truncate(sig, 80);
                out.append(t.as_str());
                out.append("\n");
            }
            assert(out@ =~= old(out)@ + spec_import_line(i@, indent@));
        },
        _ => {
            assert(out@ =~= old(out)@ + spec_import_line(i@, indent@));
        },
    }
}

/// Appends the text of one item.
fn write_item(kind: &LineKind, item: &Json, indent: &str, out: &mut String)
    ensures
        final(out)@ == old(out)@ + spec_item_line(*kind, item@, indent@),
{
    match kind {
        LineKind::File => write_file_line(item, indent, out),
        LineKind::Symbol => write_symbol_line(item, indent, out),
        LineKind::Ref => write_ref_line(item, indent, out),
        LineKind::UsageCount => write_usage_count_line(item, indent, out),
        LineKind::Content => write_content_line(item, indent, out),
        LineKind::Import => write_import_line(item, indent, out),
    }
}

/// Appends the text of every item, in order.
fn write_items(kind: &LineKind, items: &Vec<Json>, indent: &str, out: &mut String)
    ensures
        final(out)@ == old(out)@ + concat_map(views(items@), item_lines(*kind, indent@)),
{
    let ghost vs = views(items@);
    let ghost f = item_lines(*kind, indent@);
    for i in 0..items.len()
        invariant
            vs == views(items@),
            f == item_lines(*kind, indent@),
            out@ == old(out)@ + concat_map(vs.take(i as int), f),
    {
        write_item(kind, &items[i], indent, out);
        proof {
            assert(vs.take(i + 1).drop_last() =~= vs.take(i as int));
            assert(vs.take(i + 1).last() == items@[i as int]@);
            assert(out@ =~= old(out)@ + concat_map(vs.take(i + 1), f));
        }
    }
    assert(vs.take(items.len() as int) =~= vs);
}

/// Whether member `key` of `v` is a non-empty array.
pub open spec fn has_items(v: JsonView, key: Seq<char>) -> bool {
    field_array(v, key) matches Some(a) && a.len() > 0
}

/// `title` followed by the lines of the items of the array `v[key]`, when
/// that array is non-empty; nothing otherwise.
pub open spec fn spec_section(v: JsonView, key: Seq<char>, title: Seq<char>, kind: LineKind) -> Seq<
    char,
> {
    match field_array(v, key) {
        Some(a) => if a.len() > 0 {
            title + concat_map(a, item_lines(kind, "  "@))
        } else {
            Seq::empty()
        },
        None => Seq::empty(),
    }
}

/// The `search` layout: sections for files, symbols, usage counts and
/// content matches. Rendered when the response is an object with a non-empty
/// section or a `files` member.
pub open spec fn spec_render_search(v: JsonView) -> Option<Seq<char>> {
    if v is Object {
        let text = spec_section(v, "files"@, "Files:\n"@, LineKind::File) + spec_section(
            v,
            "symbols"@,
            "\nSymbols:\n"@,
            LineKind::Symbol,
        ) + spec_section(v, "references"@, "\nReferences (usage counts):\n"@, LineKind::UsageCount)
            + spec_section(v, "content_matches"@, "\nContent:\n"@, LineKind::Content);
        let any = has_items(v, "files"@) || has_items(v, "symbols"@) || has_items(
            v,
            "references"@,
        ) || has_items(v, "content_matches"@);
        if any || spec_get(v, "files"@) is Some {
            Some(text)
        } else {
            None
        }
    } else {
        None
    }
}

/// The `refs` layout: sections for definitions, imports and usages.
/// Rendered when the response is an object with a non-empty section or a
/// `definitions` member.
pub open spec fn spec_render_refs(v: JsonView) -> Option<Seq<char>> {
    if v is Object {
        let text = spec_section(v, "definitions"@, "Definitions:\n"@, LineKind::Symbol)
            + spec_section(v, "imports"@, "\nImports:\n"@, LineKind::Import) + spec_section(
            v,
            "usages"@,
            "\nUsages:\n"@,
            LineKind::Ref,
        );
        let any = has_items(v, "definitions"@) || has_items(v, "imports"@) || has_items(
            v,
            "usages"@,
        );
        if any || spec_get(v, "definitions"@) is Some {
            Some(text)
        } else {
            None
        }
    } else {
        None
    }
}

/// One unindented line (or pair of lines) per item, for a response that is an
/// array.
pub open spec fn spec_render_list(v: JsonView, kind: LineKind) -> Option<Seq<char>> {
    match v {
        JsonView::Array(a) => Some(concat_map(a, item_lines(kind, ""@))),
        _ => None,
    }
}

/// Appends the section of `v[key]`; whether that array is non-empty.
fn write_section(v: &Json, key: &str, title: &str, kind: LineKind, out: &mut String) -> (r: bool)
    ensures
        r == has_items(v@, key@),
        final(out)@ == old(out)@ + spec_section(v@, key@, title@, kind),
{
    match v.get(key) {
        Some(x) => match x.as_array() {
            Some(a) => {
                if a.len() > 0 {
                    out.append(title);
                    write_items(&kind, a, "  ", out);
                    assert(out@ =~= old(out)@ + spec_section(v@, key@, title@, kind));
                    true
                } else {
                    assert(out@ =~= old(out)@ + spec_section(v@, key@, title@, kind));
                    false
                }
            },
            None => {
                assert(out@ =~= old(out)@ + spec_section(v@, key@, title@, kind));
                false
            },
        },
        None => {
            assert(out@ =~= old(out)@ + spec_section(v@, key@, title@, kind));
            false
        },
    }
}

/// Renders a `search` response.
fn render_search(v: &Json, out: &mut String) -> (r: bool)
    ensures
        match spec_render_search(v@) {
            Some(t) => r && final(out)@ == old(out)@ + t,
            None => !r && final(out)@ == old(out)@,
        },
{
    if !v.is_object() {
        return false;
    }
    let a = write_section(v, "files", "Files:\n", LineKind::File, out);
    let b = write_section(v, "symbols", "\nSymbols:\n", LineKind::Symbol, out);
    let c = write_section(v, "references", "\nReferences (usage counts):\n", LineKind::UsageCount, out);
    let d = write_section(v, "content_matches", "\nContent:\n", LineKind::Content, out);
    let any_section = a || b || c || d;
    let r = any_section || v.get("files").is_some();
    proof {
        if !any_section {
            assert(out@ =~= old(out)@);
        } else {
            assert(out@ =~= old(out)@ + spec_render_search(v@)->0);
        }
    }
    r
}

/// Renders a `refs` response.
fn render_refs(v: &Json, out: &mut String) -> (r: bool)
    ensures
        match spec_render_refs(v@) {
            Some(t) => r && final(out)@ == old(out)@ + t,
            None => !r && final(out)@ == old(out)@,
        },
{
    if !v.is_object() {
        return false;
    }
    let a = write_section(v, "definitions", "Definitions:\n", LineKind::Symbol, out);
    let b = write_section(v, "imports", "\nImports:\n", LineKind::Import, out);
    let c = write_section(v, "usages", "\nUsages:\n", LineKind::Ref, out);
    let any = a || b || c;
    let r = any || v.get("definitions").is_some();
    proof {
        if !any {
            assert(out@ =~= old(out)@);
        } else {
            assert(out@ =~= old(out)@ + spec_render_refs(v@)->0);
        }
    }
    r
}

/// Renders a response that is a list of items of one kind.
fn render_list(v: &Json, kind: LineKind, out: &mut String) -> (r: bool)
    ensures
        match spec_render_list(v@, kind) {
            Some(t) => r && final(out)@ == old(out)@ + t,
            None => !r && final(out)@ == old(out)@,
        },
{
    match v.as_array() {
        Some(a) => {
            write_items(&kind, a, "", out);
            true
        },
        None => false,
    }
}

/// Renders a `usages` or `callers` response: one reference per entry.
fn render_ref_list(v: &Json, out: &mut String) -> (r: bool)
    ensures
        match spec_render_list(v@, LineKind::Ref) {
            Some(t) => r && final(out)@ == old(out)@ + t,
            None => !r && final(out)@ == old(out)@,
        },
{
    render_list(v, LineKind::Ref, out)
}

/// Renders a `symbol`, `class` or `implementations` response.
fn render_symbol_list(v: &Json, out: &mut String) -> (r: bool)
    ensures
        match spec_render_list(v@, LineKind::Symbol) {
            Some(t) => r && final(out)@ == old(out)@ + t,
            None => !r && final(out)@ == old(out)@,
        },
{
    render_list(v, LineKind::Symbol, out)
}

/// Renders a `file` or `find_file` response: one path per line.
fn render_file_list(v: &Json, out: &mut String) -> (r: bool)
    ensures
        match spec_render_list(v@, LineKind::File) {
            Some(t) => r && final(out)@ == old(out)@ + t,
            None => !r && final(out)@ == old(out)@,
        },
{
    render_list(v, LineKind::File, out)
}

/// `{key}: {n}` for a positive integer member `key` of `stats`; nothing
/// otherwise.
pub open spec fn spec_counter_line(stats: JsonView, key: Seq<char>) -> Seq<char> {
    match field_i64(stats, key) {
        Some(n) => if n > 0 {
            key + ": "@ + spec_decimal(n as int) + "\n"@
        } else {
            Seq::empty()
        },
        None => Seq::empty(),
    }
}

/// The known counters of an index, in their fixed order, zeros left out.
pub open spec fn spec_counters(stats: JsonView) -> Seq<char> {
    spec_counter_line(stats, "file_count"@) + spec_counter_line(stats, "symbol_count"@)
        + spec_counter_line(stats, "refs_count"@) + spec_counter_line(stats, "module_count"@)
        + spec_counter_line(stats, "xml_usages_count"@) + spec_counter_line(
        stats,
        "resources_count"@,
    ) + spec_counter_line(stats, "storyboard_usages_count"@) + spec_counter_line(
        stats,
        "ios_assets_count"@,
    )
}

/// The counters of the `stats` member of `v`.
pub open spec fn spec_stats_counters(v: JsonView) -> Seq<char> {
    match spec_get(v, "stats"@) {
        Some(s) => spec_counters(s),
        None => Seq::empty(),
    }
}

/// `db_size_mb: {size}` for a positive size; nothing otherwise.
pub open spec fn spec_size_line(db_size: i64) -> Seq<char> {
    if db_size > 0 {
        "db_size_mb: "@ + spec_mib_text(db_size as nat) + "\n"@
    } else {
        Seq::empty()
    }
}

/// `db_path: {path}` for a non-empty path; nothing otherwise.
pub open spec fn spec_path_line(db_path: Seq<char>) -> Seq<char> {
    if db_path.len() > 0 {
        "db_path: "@ + db_path + "\n"@
    } else {
        Seq::empty()
    }
}

/// Whether `v` is an object with at least one member of the `stats` layout:
/// `project`, `stats`, `db_size_bytes` or `db_path`. Any other response (an
/// error object, say) is not recognised, so it is kept as compact JSON.
pub open spec fn spec_has_stats_shape(v: JsonView) -> bool {
    &&& v is Object
    &&& {
        ||| spec_get(v, "project"@) is Some
        ||| spec_get(v, "stats"@) is Some
        ||| spec_get(v, "db_size_bytes"@) is Some
        ||| spec_get(v, "db_path"@) is Some
    }
}

/// The `stats` layout, for a response with that shape: the project, the
/// known counters, the database size in MiB when positive and the database
/// path when non-empty.
pub open spec fn spec_render_stats(v: JsonView) -> Option<Seq<char>> {
    if spec_has_stats_shape(v) {
        let project = str_or(field_str(v, "project"@), "?"@);
        let db_size = i64_or(field_i64(v, "db_size_bytes"@), 0);
        let db_path = str_or(field_str(v, "db_path"@), ""@);
        Some("project: "@ + project + "\n"@ + spec_stats_counters(v) + spec_size_line(db_size)
            + spec_path_line(db_path))
    } else {
        None
    }
}

fn write_counter_line(stats: &Json, key: &str, out: &mut String)
    ensures
        final(out)@ == old(out)@ + spec_counter_line(stats@, key@),
{
    match field_i64_opt(stats, key) {
        Some(n) => {
            if n > 0 {
                out.append(key);
                out.append(": ");
                push_decimal(out, n);
                out.append("\n");
            }
        },
        None => {},
    }
    assert(out@ =~= old(out)@ + spec_counter_line(stats@, key@));
}

fn write_counters(stats: &Json, out: &mut String)
    ensures
        final(out)@ == old(out)@ + spec_counters(stats@),
{
    write_counter_line(stats, "file_count", out);
    write_counter_line(stats, "symbol_count", out);
    write_counter_line(stats, "refs_count", out);
    write_counter_line(stats, "module_count", out);
    write_counter_line(stats, "xml_usages_count", out);
    write_counter_line(stats, "resources_count", out);
    write_counter_line(stats, "storyboard_usages_count", out);
    write_counter_line(stats, "ios_assets_count", out);
    assert(out@ =~= old(out)@ + spec_counters(stats@));
}

fn write_stats_counters(v: &Json, out: &mut String)
    ensures
        final(out)@ == old(out)@ + spec_stats_counters(v@),
{
    match v.get("stats") {
        Some(stats) => write_counters(stats, out),
        None => {
            assert(out@ =~= old(out)@ + spec_stats_counters(v@));
        },
    }
}

fn write_size_line(db_size: i64, out: &mut String)
    ensures
        final(out)@ == old(out)@ + spec_size_line(db_size),
{
    if db_size > 0 {
        out.append("db_size_mb: ");
        push_mib(out, db_size);
        out.append("\n");
    }
    assert(out@ =~= old(out)@ + spec_size_line(db_size));
}

fn write_path_line(db_path: &str, out: &mut String)
    ensures
        final(out)@ == old(out)@ + spec_path_line(db_path@),
{
    if db_path.unicode_len() > 0 {
        out.append("db_path: ");
        out.append(db_path);
        out.append("\n");
    }
    assert(out@ =~= old(out)@ + spec_path_line(db_path@));
}

/// Renders a `stats` response.
fn render_stats(v: &Json, out: &mut String) -> (r: bool)
    ensures
        match spec_render_stats(v@) {
            Some(t) => r && final(out)@ == old(out)@ + t,
            None => !r && final(out)@ == old(out)@,
        },
{
    if !v.is_object() {
        return false;
    }
    if v.get("project").is_none() && v.get("stats").is_none() && v.get("db_size_bytes").is_none()
        && v.get("db_path").is_none() {
        return false;
    }
    let project = field_str_or(v, "project", "?");
    let db_size = field_i64_or(v, "db_size_bytes", 0);
    let db_path = field_str_or(v, "db_path", "");
    out.append("project: ");
    out.append(project);
    out.append("\n");
    write_stats_counters(v, out);
    write_size_line(db_size, out);
    write_path_line(db_path, out);
    assert(out@ =~= old(out)@ + spec_render_stats(v@)->0);
    true
}

/// The text that the layout of `tool` gives `v`, or `None` where `tool` has no
/// layout or `v` does not have its shape.
pub open spec fn spec_render(tool: Seq<char>, v: JsonView) -> Option<Seq<char>> {
    if tool == "search"@ {
        spec_render_search(v)
    } else if tool == "refs"@ {
        spec_render_refs(v)
    } else if tool == "usages"@ || tool == "callers"@ {
        spec_render_list(v, LineKind::Ref)
    } else if tool == "symbol"@ || tool == "class"@ || tool == "implementations"@ {
        spec_render_list(v, LineKind::Symbol)
    } else if tool == "file"@ || tool == "find_file"@ {
        spec_render_list(v, LineKind::File)
    } else if tool == "stats"@ {
        spec_render_stats(v)
    } else {
        None
    }
}

/// Compact JSON of `v`, or `raw` where it cannot be written.
pub open spec fn spec_compact_json(v: JsonView, raw: Seq<char>) -> Seq<char> {
    match spec_json_to_string(v) {
        Some(c) => c,
        None => raw,
    }
}

/// The compact text of a response `raw` of `tool`, `parsed` being what it
/// reads as JSON:
/// - text that is not JSON passes through with its trailing whitespace
///   removed;
/// - JSON that has no layout for `tool`, or not its shape, becomes compact
///   JSON, so nothing is lost;
/// - otherwise the layout's text with trailing whitespace removed, or
///   `(no results)` when that is empty.
pub open spec fn spec_to_compact(tool: Seq<char>, raw: Seq<char>, parsed: Option<JsonView>) -> Seq<
    char,
> {
    match parsed {
        None => spec_trim_end(raw),
        Some(v) => match spec_render(tool, v) {
            None => spec_compact_json(v, raw),
            Some(text) => if spec_trim_end(text).len() == 0 {
                "(no results)"@
            } else {
                spec_trim_end(text)
            },
        },
    }
}

/// The compact text of the response `raw_json` of `tool`, given what it reads
/// as JSON (`None` where it is not JSON).
pub fn compact_parsed(tool: &str, raw_json: &str, parsed: Option<&Json>) -> (r: String)
    ensures
        r@ == spec_to_compact(tool@, raw_json@, ref_view(parsed)),
{
    let value = match parsed {
        Some(v) => v,
        None => {
            let mut r = String::new();
            r.append(trim_end(raw_json));
            return r;
        },
    };
    let mut out = String::new();
    let rendered = if str_eq(tool, "search") {
        render_search(value, &mut out)
    } else if str_eq(tool, "refs") {
        render_refs(value, &mut out)
    } else if str_eq(tool, "usages") || str_eq(tool, "callers") {
        render_ref_list(value, &mut out)
    } else if str_eq(tool, "symbol") || str_eq(tool, "class") || str_eq(tool, "implementations") {
        render_symbol_list(value, &mut out)
    } else if str_eq(tool, "file") || str_eq(tool, "find_file") {
        render_file_list(value, &mut out)
    } else if str_eq(tool, "stats") {
        render_stats(value, &mut out)
    } else {
        false
    };
    if !rendered {
        return match json_to_string(value) {
            Some(c) => c,
            None => text(raw_json),
        };
    }
    let trimmed = trim_end(out.as_str());
    let mut r = String::new();
    if trimmed.unicode_len() == 0 {
        r.append("(no results)");
    } else {
        r.append(trimmed);
    }
    r
}

/// Formats the response `raw_json` of `tool` as compact text: reads it as
/// JSON, then renders it as [`compact_parsed`] says.
pub fn to_compact(tool: &str, raw_json: &str) -> (r: String)
    ensures
        r@ == spec_to_compact(tool@, raw_json@, spec_json_from_str(raw_json@)),
{
    let parsed = json_from_str(raw_json);
    compact_parsed(tool, raw_json, parsed.as_ref())
}

} // verus!

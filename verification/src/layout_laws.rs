//! What the compact layouts show, stated over the response and proved for
//! every response: each item that a layout lists appears, as its line, in the
//! rendered text.
use vstd::prelude::*;
use crate::format::{
    LineKind, concat_map, item_lines, spec_counters, spec_has_stats_shape, spec_render,
    spec_render_refs, spec_render_search, spec_render_stats, spec_section, spec_stats_counters,
    spec_to_compact,
};
use crate::json::{JsonView, field_array, field_i64, field_str, i64_or, spec_get, str_or};
use crate::size::spec_mib_text;
use crate::jsontext::spec_json_from_str;
use crate::laws::lemma_trim_is_content;
use crate::text::{
    spec_decimal, spec_digit_char, spec_digits, spec_is_whitespace, spec_trim, spec_trim_end,
    spec_truncate,
};

verus! {

/// `part` stands in `text` from position `p` on.
pub open spec fn occurs_at(text: Seq<char>, part: Seq<char>, p: int) -> bool {
    0 <= p && p + part.len() <= text.len() && text.subrange(p, p + part.len()) == part
}

/// `part` stands somewhere in `text`.
pub open spec fn occurs_in(text: Seq<char>, part: Seq<char>) -> bool {
    exists|p: int| #[trigger] occurs_at(text, part, p)
}

proof fn lemma_occurs_inside(x: Seq<char>, a: Seq<char>, y: Seq<char>, part: Seq<char>, p: int)
    requires
        occurs_at(a, part, p),
    ensures
        occurs_at(x + a + y, part, x.len() + p),
{
    assert((x + a + y).subrange(x.len() + p, x.len() + p + part.len()) =~= a.subrange(
        p,
        p + part.len(),
    ));
}

/// The text of item `k` of a list stands in the list's text, after the
/// texts of the items before it.
proof fn lemma_concat_map_has_item(items: Seq<JsonView>, f: spec_fn(JsonView) -> Seq<char>, k: int)
    requires
        0 <= k < items.len(),
    ensures
        occurs_at(concat_map(items, f), f(items[k]), concat_map(items.take(k), f).len() as int),
    decreases items.len(),
{
    let init = items.drop_last();
    if k == items.len() - 1 {
        assert(init =~= items.take(k));
        assert(f(items[k]).subrange(0, f(items[k]).len() as int) =~= f(items[k]));
        lemma_occurs_inside(concat_map(init, f), f(items[k]), Seq::empty(), f(items[k]), 0);
        assert(concat_map(init, f) + f(items[k]) + Seq::<char>::empty() =~= concat_map(items, f));
    } else {
        lemma_concat_map_has_item(init, f, k);
        assert(init.take(k) =~= items.take(k));
        assert(init[k] == items[k]);
        lemma_occurs_inside(
            Seq::empty(),
            concat_map(init, f),
            f(items.last()),
            f(items[k]),
            concat_map(items.take(k), f).len() as int,
        );
        assert(Seq::<char>::empty() + concat_map(init, f) + f(items.last()) =~= concat_map(items, f));
    }
}

/// The line of item `k` of the array `v[key]` stands in the section of `key`.
proof fn lemma_section_has_item(v: JsonView, key: Seq<char>, title: Seq<char>, kind: LineKind, k: int)
    requires
        field_array(v, key) matches Some(a) && 0 <= k < a.len(),
    ensures
        occurs_in(
            spec_section(v, key, title, kind),
            item_lines(kind, "  "@)(field_array(v, key)->0[k]),
        ),
{
    let a = field_array(v, key)->0;
    let f = item_lines(kind, "  "@);
    lemma_concat_map_has_item(a, f, k);
    let p = concat_map(a.take(k), f).len() as int;
    lemma_occurs_inside(title, concat_map(a, f), Seq::empty(), f(a[k]), p);
    assert(title + concat_map(a, f) + Seq::<char>::empty() =~= spec_section(v, key, title, kind));
    assert(occurs_at(spec_section(v, key, title, kind), f(a[k]), title.len() + p));
}

/// A part of one of four consecutive pieces stands in their concatenation.
proof fn lemma_occurs_in_piece(
    s0: Seq<char>,
    s1: Seq<char>,
    s2: Seq<char>,
    s3: Seq<char>,
    i: int,
    part: Seq<char>,
)
    requires
        0 <= i < 4,
        occurs_in(if i == 0 { s0 } else if i == 1 { s1 } else if i == 2 { s2 } else { s3 }, part),
    ensures
        occurs_in(s0 + s1 + s2 + s3, part),
{
    let piece = if i == 0 { s0 } else if i == 1 { s1 } else if i == 2 { s2 } else { s3 };
    let p = choose|p: int| occurs_at(piece, part, p);
    if i == 0 {
        lemma_occurs_inside(Seq::empty(), s0, s1 + s2 + s3, part, p);
        assert(Seq::<char>::empty() + s0 + (s1 + s2 + s3) =~= s0 + s1 + s2 + s3);
        assert(occurs_at(s0 + s1 + s2 + s3, part, p));
    } else if i == 1 {
        lemma_occurs_inside(s0, s1, s2 + s3, part, p);
        assert(s0 + s1 + (s2 + s3) =~= s0 + s1 + s2 + s3);
        assert(occurs_at(s0 + s1 + s2 + s3, part, s0.len() + p));
    } else if i == 2 {
        lemma_occurs_inside(s0 + s1, s2, s3, part, p);
        assert(occurs_at(s0 + s1 + s2 + s3, part, (s0 + s1).len() + p));
    } else {
        lemma_occurs_inside(s0 + s1 + s2, s3, Seq::empty(), part, p);
        assert(s0 + s1 + s2 + s3 + Seq::<char>::empty() =~= s0 + s1 + s2 + s3);
        assert(occurs_at(s0 + s1 + s2 + s3, part, (s0 + s1 + s2).len() + p));
    }
}

/// In a `search` response, every reference that has a string `name` and an
/// integer `usage_count` is shown as `  {name} ×{usage_count}`, whatever the
/// count.
pub proof fn law_search_shows_every_usage_count(v: JsonView, k: int)
    requires
        v is Object,
        field_array(v, "references"@) matches Some(a) && 0 <= k < a.len(),
        field_str(field_array(v, "references"@)->0[k], "name"@) is Some,
        field_i64(field_array(v, "references"@)->0[k], "usage_count"@) is Some,
    ensures
        spec_render_search(v) is Some,
        occurs_in(
            spec_render_search(v)->0,
            "  "@ + field_str(field_array(v, "references"@)->0[k], "name"@)->0 + " ×"@
                + spec_decimal(
                field_i64(field_array(v, "references"@)->0[k], "usage_count"@)->0 as int,
            ) + "\n"@,
        ),
{
    lemma_section_has_item(v, "references"@, "\nReferences (usage counts):\n"@, LineKind::UsageCount, k);
    lemma_occurs_in_piece(
        spec_section(v, "files"@, "Files:\n"@, LineKind::File),
        spec_section(v, "symbols"@, "\nSymbols:\n"@, LineKind::Symbol),
        spec_section(v, "references"@, "\nReferences (usage counts):\n"@, LineKind::UsageCount),
        spec_section(v, "content_matches"@, "\nContent:\n"@, LineKind::Content),
        2,
        item_lines(LineKind::UsageCount, "  "@)(field_array(v, "references"@)->0[k]),
    );
}

/// In a `search` response, every content match with a string `path`, an
/// integer `line` and a string `content` is shown as
/// `  {path}:{line}  {content}`, the content trimmed and cut to 100
/// characters.
pub proof fn law_search_shows_every_content_match(v: JsonView, k: int)
    requires
        v is Object,
        field_array(v, "content_matches"@) matches Some(a) && 0 <= k < a.len(),
        field_str(field_array(v, "content_matches"@)->0[k], "path"@) is Some,
        field_i64(field_array(v, "content_matches"@)->0[k], "line"@) is Some,
        field_str(field_array(v, "content_matches"@)->0[k], "content"@) is Some,
    ensures
        spec_render_search(v) is Some,
        occurs_in(
            spec_render_search(v)->0,
            "  "@ + field_str(field_array(v, "content_matches"@)->0[k], "path"@)->0 + ":"@
                + spec_decimal(field_i64(field_array(v, "content_matches"@)->0[k], "line"@)->0 as int)
                + "  "@ + spec_truncate(
                field_str(field_array(v, "content_matches"@)->0[k], "content"@)->0,
                100,
            ) + "\n"@,
        ),
{
    lemma_section_has_item(v, "content_matches"@, "\nContent:\n"@, LineKind::Content, k);
    lemma_occurs_in_piece(
        spec_section(v, "files"@, "Files:\n"@, LineKind::File),
        spec_section(v, "symbols"@, "\nSymbols:\n"@, LineKind::Symbol),
        spec_section(v, "references"@, "\nReferences (usage counts):\n"@, LineKind::UsageCount),
        spec_section(v, "content_matches"@, "\nContent:\n"@, LineKind::Content),
        3,
        item_lines(LineKind::Content, "  "@)(field_array(v, "content_matches"@)->0[k]),
    );
}

/// In a `search` response, every string of `files` is shown as `  {file}`.
pub proof fn law_search_shows_every_file(v: JsonView, k: int)
    requires
        v is Object,
        field_array(v, "files"@) matches Some(a) && 0 <= k < a.len(),
        field_array(v, "files"@)->0[k] is Str,
    ensures
        spec_render_search(v) is Some,
        occurs_in(spec_render_search(v)->0, "  "@ + field_array(v, "files"@)->0[k]->Str_0 + "\n"@),
{
    lemma_section_has_item(v, "files"@, "Files:\n"@, LineKind::File, k);
    lemma_occurs_in_piece(
        spec_section(v, "files"@, "Files:\n"@, LineKind::File),
        spec_section(v, "symbols"@, "\nSymbols:\n"@, LineKind::Symbol),
        spec_section(v, "references"@, "\nReferences (usage counts):\n"@, LineKind::UsageCount),
        spec_section(v, "content_matches"@, "\nContent:\n"@, LineKind::Content),
        0,
        item_lines(LineKind::File, "  "@)(field_array(v, "files"@)->0[k]),
    );
}

/// In a `refs` response, every import with a string `path` and an integer
/// `line` is shown as `  {path}:{line}`, followed by two spaces and its
/// signature (trimmed, cut to 80 characters) when it has a non-empty string
/// signature; an absent signature counts as an empty one.
pub proof fn law_refs_shows_every_import(v: JsonView, k: int)
    requires
        v is Object,
        field_array(v, "imports"@) matches Some(a) && 0 <= k < a.len(),
        field_str(field_array(v, "imports"@)->0[k], "path"@) is Some,
        field_i64(field_array(v, "imports"@)->0[k], "line"@) is Some,
    ensures
        spec_render_refs(v) is Some,
        ({
            let i = field_array(v, "imports"@)->0[k];
            let head = "  "@ + field_str(i, "path"@)->0 + ":"@ + spec_decimal(
                field_i64(i, "line"@)->0 as int,
            );
            match field_str(i, "signature"@) {
                Some(sig) if sig.len() > 0 => occurs_in(
                    spec_render_refs(v)->0,
                    head + "  "@ + spec_truncate(sig, 80) + "\n"@,
                ),
                _ => occurs_in(spec_render_refs(v)->0, head + "\n"@),
            }
        }),
{
    reveal_strlit("");
    lemma_section_has_item(v, "imports"@, "\nImports:\n"@, LineKind::Import, k);
    lemma_occurs_in_piece(
        spec_section(v, "definitions"@, "Definitions:\n"@, LineKind::Symbol),
        spec_section(v, "imports"@, "\nImports:\n"@, LineKind::Import),
        spec_section(v, "usages"@, "\nUsages:\n"@, LineKind::Ref),
        Seq::empty(),
        1,
        item_lines(LineKind::Import, "  "@)(field_array(v, "imports"@)->0[k]),
    );
    let s0 = spec_section(v, "definitions"@, "Definitions:\n"@, LineKind::Symbol);
    let s1 = spec_section(v, "imports"@, "\nImports:\n"@, LineKind::Import);
    let s2 = spec_section(v, "usages"@, "\nUsages:\n"@, LineKind::Ref);
    assert(s0 + s1 + s2 + Seq::<char>::empty() =~= s0 + s1 + s2);
}

/// The known counters of an index, in the order `stats` shows them.
pub open spec fn known_counters() -> Seq<Seq<char>> {
    seq![
        "file_count"@,
        "symbol_count"@,
        "refs_count"@,
        "module_count"@,
        "xml_usages_count"@,
        "resources_count"@,
        "storyboard_usages_count"@,
        "ios_assets_count"@,
    ]
}

/// `{key}: {n}` when `stats[key]` is a positive integer `n`; nothing
/// otherwise.
pub open spec fn shown_counter(stats: JsonView, key: Seq<char>) -> Seq<char> {
    match field_i64(stats, key) {
        Some(n) => if n > 0 {
            key + ": "@ + spec_decimal(n as int) + "\n"@
        } else {
            Seq::empty()
        },
        None => Seq::empty(),
    }
}

/// The lines of the first `i` known counters, in order.
pub open spec fn shown_counters(stats: JsonView, i: nat) -> Seq<char>
    decreases i,
{
    if i == 0 {
        Seq::empty()
    } else {
        shown_counters(stats, (i - 1) as nat) + shown_counter(stats, known_counters()[i - 1])
    }
}

/// The counters of a `stats` response are the known counters in their fixed
/// order, each shown exactly when it is a positive integer.
pub proof fn law_stats_counters_in_fixed_order(v: JsonView)
    requires
        spec_get(v, "stats"@) is Some,
    ensures
        spec_stats_counters(v) == shown_counters(spec_get(v, "stats"@)->0, 8),
{
    let s = spec_get(v, "stats"@)->0;
    reveal_with_fuel(shown_counters, 9);
    assert(spec_counters(s) =~= shown_counters(s, 8));
}

proof fn lemma_shown_counters_has(stats: JsonView, k: nat, i: nat)
    requires
        k < i <= 8,
    ensures
        occurs_in(shown_counters(stats, i), shown_counter(stats, known_counters()[k as int])),
    decreases i,
{
    let part = shown_counter(stats, known_counters()[k as int]);
    if k == i - 1 {
        let prev = shown_counters(stats, (i - 1) as nat);
        assert(part.subrange(0, part.len() as int) =~= part);
        lemma_occurs_inside(prev, part, Seq::empty(), part, 0);
        assert(prev + part + Seq::<char>::empty() =~= shown_counters(stats, i));
        assert(occurs_at(shown_counters(stats, i), part, prev.len() as int));
    } else {
        lemma_shown_counters_has(stats, k, (i - 1) as nat);
        let prev = shown_counters(stats, (i - 1) as nat);
        let p = choose|p: int| occurs_at(prev, part, p);
        let last = shown_counter(stats, known_counters()[i - 1]);
        lemma_occurs_inside(Seq::empty(), prev, last, part, p);
        assert(Seq::<char>::empty() + prev + last =~= shown_counters(stats, i));
        assert(occurs_at(shown_counters(stats, i), part, p));
    }
}

/// A `stats` response shows `{key}: {n}` for every known counter `key` whose
/// value is a positive integer `n`.
pub proof fn law_stats_shows_every_positive_counter(v: JsonView, k: int)
    requires
        0 <= k < 8,
        spec_get(v, "stats"@) is Some,
        field_i64(spec_get(v, "stats"@)->0, known_counters()[k]) matches Some(n) && n > 0,
    ensures
        spec_render_stats(v) is Some,
        occurs_in(
            spec_render_stats(v)->0,
            known_counters()[k] + ": "@ + spec_decimal(
                field_i64(spec_get(v, "stats"@)->0, known_counters()[k])->0 as int,
            ) + "\n"@,
        ),
{
    let s = spec_get(v, "stats"@)->0;
    law_stats_counters_in_fixed_order(v);
    lemma_shown_counters_has(s, k as nat, 8);
    let part = shown_counter(s, known_counters()[k]);
    let t = spec_render_stats(v)->0;
    let p = choose|p: int| occurs_at(shown_counters(s, 8), part, p);
    let project = crate::json::str_or(field_str(v, "project"@), "?"@);
    let db_size = crate::json::i64_or(field_i64(v, "db_size_bytes"@), 0);
    let db_path = crate::json::str_or(field_str(v, "db_path"@), ""@);
    let head = "project: "@ + project + "\n"@;
    let tail = crate::format::spec_size_line(db_size) + crate::format::spec_path_line(db_path);
    lemma_occurs_inside(head, shown_counters(s, 8), tail, part, p);
    assert(head + shown_counters(s, 8) + tail =~= t);
    assert(occurs_at(t, part, head.len() + p));
}

proof fn lemma_digit_is_not_whitespace(d: nat)
    ensures
        !spec_is_whitespace(spec_digit_char(d)),
{
}

/// The decimal text of an integer is non-empty and ends in a digit.
proof fn lemma_decimal_ends_in_digit(i: int)
    ensures
        spec_decimal(i).len() > 0,
        !spec_is_whitespace(spec_decimal(i).last()),
{
    let n: nat = if i < 0 { (-i) as nat } else { i as nat };
    if n < 10 {
        lemma_digit_is_not_whitespace(n);
    } else {
        lemma_digit_is_not_whitespace(n % 10);
    }
    assert(spec_digits(n).len() > 0);
    assert(!spec_is_whitespace(spec_digits(n).last()));
    if i < 0 {
        assert((seq!['-'] + spec_digits(n)).last() == spec_digits(n).last());
    }
}

proof fn lemma_ends_with(a: Seq<char>, b: Seq<char>)
    requires
        b.len() > 0,
    ensures
        (a + b).len() > 0,
        (a + b).last() == b.last(),
{
}

/// A line of `text` that ends in a character other than whitespace is kept by
/// `trim_end`, as a line of its own or as the last line.
proof fn lemma_trim_end_keeps_line(text: Seq<char>, line: Seq<char>, p: int)
    requires
        occurs_at(text, line + "\n"@, p),
        line.len() > 0,
        !spec_is_whitespace(line.last()),
    ensures
        spec_trim_end(text).len() > 0,
        occurs_at(spec_trim_end(text) + "\n"@, line + "\n"@, p),
    decreases text.len(),
{
    reveal_strlit("\n");
    let m = line + "\n"@;
    assert(m.len() == line.len() + 1);
    assert(text[p + line.len() - 1] == m[line.len() - 1]);
    assert(text[p + line.len()] == m[line.len() as int]);
    if text.len() > 0 && spec_is_whitespace(text.last()) {
        let t = text.drop_last();
        if p + m.len() <= t.len() {
            assert(t.subrange(p, p + m.len()) =~= text.subrange(p, p + m.len()));
            lemma_trim_end_keeps_line(t, line, p);
        } else {
            assert(t.last() == line.last());
            assert(spec_trim_end(t) == t);
            assert(t + "\n"@ =~= text);
        }
    } else {
        assert((text + "\n"@).subrange(p, p + m.len()) =~= text.subrange(p, p + m.len()));
    }
}

/// The compact text of a `search` response holds, as one of its lines, the
/// line `  {name} ×{usage_count}` of every reference that has a string `name`
/// and an integer `usage_count`, whatever the count.
pub proof fn law_compact_search_shows_every_usage_count(raw: Seq<char>, v: JsonView, k: int)
    requires
        spec_json_from_str(raw) == Some(v),
        v is Object,
        field_array(v, "references"@) matches Some(a) && 0 <= k < a.len(),
        field_str(field_array(v, "references"@)->0[k], "name"@) is Some,
        field_i64(field_array(v, "references"@)->0[k], "usage_count"@) is Some,
    ensures
        ({
            let r = field_array(v, "references"@)->0[k];
            occurs_in(
                spec_to_compact("search"@, raw, spec_json_from_str(raw)) + "\n"@,
                "  "@ + field_str(r, "name"@)->0 + " ×"@ + spec_decimal(
                    field_i64(r, "usage_count"@)->0 as int,
                ) + "\n"@,
            )
        }),
{
    let r = field_array(v, "references"@)->0[k];
    let front = "  "@ + field_str(r, "name"@)->0 + " ×"@;
    let count = spec_decimal(field_i64(r, "usage_count"@)->0 as int);
    let line = front + count;
    law_search_shows_every_usage_count(v, k);
    let text = spec_render_search(v)->0;
    let p = choose|p: int| occurs_at(text, line + "\n"@, p);
    lemma_decimal_ends_in_digit(field_i64(r, "usage_count"@)->0 as int);
    lemma_ends_with(front, count);
    lemma_trim_end_keeps_line(text, line, p);
    assert(spec_to_compact("search"@, raw, spec_json_from_str(raw)) == spec_trim_end(text));
    assert(occurs_at(spec_trim_end(text) + "\n"@, line + "\n"@, p));
}

/// The compact text of a `refs` response holds, as one of its lines, the line
/// of every import with a string `path` and an integer `line`:
/// `  {path}:{line}`, followed by two spaces and the signature (trimmed, cut to
/// 80 characters) when the import has a non-empty string signature. An absent
/// signature counts as an empty one.
pub proof fn law_compact_refs_shows_every_import(raw: Seq<char>, v: JsonView, k: int)
    requires
        spec_json_from_str(raw) == Some(v),
        v is Object,
        field_array(v, "imports"@) matches Some(a) && 0 <= k < a.len(),
        field_str(field_array(v, "imports"@)->0[k], "path"@) is Some,
        field_i64(field_array(v, "imports"@)->0[k], "line"@) is Some,
        ({
            let sig = str_or(field_str(field_array(v, "imports"@)->0[k], "signature"@), ""@);
            sig.len() == 0 || spec_trim(sig).len() > 0
        }),
    ensures
        ({
            let i = field_array(v, "imports"@)->0[k];
            let head = "  "@ + field_str(i, "path"@)->0 + ":"@ + spec_decimal(
                field_i64(i, "line"@)->0 as int,
            );
            let compact = spec_to_compact("refs"@, raw, spec_json_from_str(raw)) + "\n"@;
            match field_str(i, "signature"@) {
                Some(sig) if sig.len() > 0 => occurs_in(
                    compact,
                    head + "  "@ + spec_truncate(sig, 80) + "\n"@,
                ),
                _ => occurs_in(compact, head + "\n"@),
            }
        }),
{
    reveal_strlit("");
    reveal_strlit("search");
    reveal_strlit("refs");
    assert("refs"@.len() != "search"@.len());
    let i = field_array(v, "imports"@)->0[k];
    let front = "  "@ + field_str(i, "path"@)->0 + ":"@;
    let number = spec_decimal(field_i64(i, "line"@)->0 as int);
    let head = front + number;
    law_refs_shows_every_import(v, k);
    let text = spec_render_refs(v)->0;
    lemma_decimal_ends_in_digit(field_i64(i, "line"@)->0 as int);
    lemma_ends_with(front, number);
    let sig = str_or(field_str(i, "signature"@), ""@);
    let line = if sig.len() > 0 {
        head + "  "@ + spec_truncate(sig, 80)
    } else {
        head
    };
    if sig.len() > 0 {
        let t = spec_trim(sig);
        lemma_trim_is_content(sig);
        let cut = spec_truncate(sig, 80);
        if t.len() > 80 {
            assert(cut.last() == '…');
        }
        assert(cut.len() > 0 && !spec_is_whitespace(cut.last()));
        lemma_ends_with(head + "  "@, cut);
    }
    let p = choose|p: int| occurs_at(text, line + "\n"@, p);
    lemma_trim_end_keeps_line(text, line, p);
    assert(spec_to_compact("refs"@, raw, spec_json_from_str(raw)) == spec_trim_end(text));
    assert(occurs_at(spec_trim_end(text) + "\n"@, line + "\n"@, p));
}

/// The compact text of a `stats` response holds, as one of its lines,
/// `{key}: {n}` for every known counter `key` whose value is a positive
/// integer `n`.
pub proof fn law_compact_stats_shows_every_positive_counter(raw: Seq<char>, v: JsonView, k: int)
    requires
        spec_json_from_str(raw) == Some(v),
        0 <= k < 8,
        spec_get(v, "stats"@) is Some,
        field_i64(spec_get(v, "stats"@)->0, known_counters()[k]) matches Some(n) && n > 0,
    ensures
        occurs_in(
            spec_to_compact("stats"@, raw, spec_json_from_str(raw)) + "\n"@,
            known_counters()[k] + ": "@ + spec_decimal(
                field_i64(spec_get(v, "stats"@)->0, known_counters()[k])->0 as int,
            ) + "\n"@,
        ),
{
    reveal_strlit("search");
    reveal_strlit("refs");
    reveal_strlit("usages");
    reveal_strlit("callers");
    reveal_strlit("symbol");
    reveal_strlit("class");
    reveal_strlit("implementations");
    reveal_strlit("file");
    reveal_strlit("find_file");
    reveal_strlit("stats");
    assert("stats"@.len() != "search"@.len());
    assert("stats"@.len() != "refs"@.len());
    assert("stats"@.len() != "usages"@.len());
    assert("stats"@.len() != "callers"@.len());
    assert("stats"@.len() != "symbol"@.len());
    assert("stats"@[0] != "class"@[0]);
    assert("stats"@.len() != "implementations"@.len());
    assert("stats"@.len() != "file"@.len());
    assert("stats"@.len() != "find_file"@.len());
    let n = field_i64(spec_get(v, "stats"@)->0, known_counters()[k])->0;
    let front = known_counters()[k] + ": "@;
    let number = spec_decimal(n as int);
    let line = front + number;
    law_stats_shows_every_positive_counter(v, k);
    let text = spec_render_stats(v)->0;
    let p = choose|p: int| occurs_at(text, line + "\n"@, p);
    lemma_decimal_ends_in_digit(n as int);
    lemma_ends_with(front, number);
    lemma_trim_end_keeps_line(text, line, p);
    assert(spec_to_compact("stats"@, raw, spec_json_from_str(raw)) == spec_trim_end(text));
    assert(occurs_at(spec_trim_end(text) + "\n"@, line + "\n"@, p));
}

/// The second line of a symbol or a reference: its detail (signature or
/// context) indented by two more spaces, trimmed and cut to 80 characters,
/// when it is a non-empty string; nothing otherwise.
pub open spec fn shown_detail(detail: Option<Seq<char>>, indent: Seq<char>) -> Seq<char> {
    match detail {
        Some(d) if d.len() > 0 => indent + "  "@ + spec_truncate(d, 80) + "\n"@,
        _ => Seq::empty(),
    }
}

/// How a symbol is shown: `{name} [{kind}] {path}:{line}`, each missing
/// string member as `?` and a missing line as 0, then its signature.
pub open spec fn shown_symbol(s: JsonView, indent: Seq<char>) -> Seq<char> {
    indent + str_or(field_str(s, "name"@), "?"@) + " ["@ + str_or(field_str(s, "kind"@), "?"@)
        + "] "@ + str_or(field_str(s, "path"@), "?"@) + ":"@ + spec_decimal(
        i64_or(field_i64(s, "line"@), 0) as int,
    ) + "\n"@ + shown_detail(field_str(s, "signature"@), indent)
}

/// How a reference is shown: `{path}:{line}`, a missing path as `?` and a
/// missing line as 0, then its context.
pub open spec fn shown_reference(r: JsonView, indent: Seq<char>) -> Seq<char> {
    indent + str_or(field_str(r, "path"@), "?"@) + ":"@ + spec_decimal(
        i64_or(field_i64(r, "line"@), 0) as int,
    ) + "\n"@ + shown_detail(field_str(r, "context"@), indent)
}

proof fn lemma_shown_lines(item: JsonView, indent: Seq<char>)
    ensures
        item_lines(LineKind::Symbol, indent)(item) == shown_symbol(item, indent),
        item_lines(LineKind::Ref, indent)(item) == shown_reference(item, indent),
{
}

/// In a `search` response, every symbol is shown, indented by two spaces.
pub proof fn law_search_shows_every_symbol(v: JsonView, k: int)
    requires
        v is Object,
        field_array(v, "symbols"@) matches Some(a) && 0 <= k < a.len(),
    ensures
        spec_render_search(v) is Some,
        occurs_in(spec_render_search(v)->0, shown_symbol(field_array(v, "symbols"@)->0[k], "  "@)),
{
    lemma_shown_lines(field_array(v, "symbols"@)->0[k], "  "@);
    lemma_section_has_item(v, "symbols"@, "\nSymbols:\n"@, LineKind::Symbol, k);
    lemma_occurs_in_piece(
        spec_section(v, "files"@, "Files:\n"@, LineKind::File),
        spec_section(v, "symbols"@, "\nSymbols:\n"@, LineKind::Symbol),
        spec_section(v, "references"@, "\nReferences (usage counts):\n"@, LineKind::UsageCount),
        spec_section(v, "content_matches"@, "\nContent:\n"@, LineKind::Content),
        1,
        item_lines(LineKind::Symbol, "  "@)(field_array(v, "symbols"@)->0[k]),
    );
}

/// In a `refs` response, every definition is shown as a symbol and every
/// usage as a reference, indented by two spaces.
pub proof fn law_refs_shows_every_definition_and_usage(v: JsonView, k: int)
    requires
        v is Object,
    ensures
        (field_array(v, "definitions"@) matches Some(a) && 0 <= k < a.len()) ==> (spec_render_refs(
            v,
        ) is Some && occurs_in(
            spec_render_refs(v)->0,
            shown_symbol(field_array(v, "definitions"@)->0[k], "  "@),
        )),
        (field_array(v, "usages"@) matches Some(a) && 0 <= k < a.len()) ==> (spec_render_refs(v) is Some
            && occurs_in(
            spec_render_refs(v)->0,
            shown_reference(field_array(v, "usages"@)->0[k], "  "@),
        )),
{
    let s0 = spec_section(v, "definitions"@, "Definitions:\n"@, LineKind::Symbol);
    let s1 = spec_section(v, "imports"@, "\nImports:\n"@, LineKind::Import);
    let s2 = spec_section(v, "usages"@, "\nUsages:\n"@, LineKind::Ref);
    assert(s0 + s1 + s2 + Seq::<char>::empty() =~= s0 + s1 + s2);
    match field_array(v, "definitions"@) {
        Some(a) => if 0 <= k < a.len() {
            lemma_shown_lines(a[k], "  "@);
            lemma_section_has_item(v, "definitions"@, "Definitions:\n"@, LineKind::Symbol, k);
            lemma_occurs_in_piece(s0, s1, s2, Seq::empty(), 0, shown_symbol(a[k], "  "@));
        },
        None => {},
    }
    match field_array(v, "usages"@) {
        Some(a) => if 0 <= k < a.len() {
            lemma_shown_lines(a[k], "  "@);
            lemma_section_has_item(v, "usages"@, "\nUsages:\n"@, LineKind::Ref, k);
            lemma_occurs_in_piece(s0, s1, s2, Seq::empty(), 2, shown_reference(a[k], "  "@));
        },
        None => {},
    }
}

proof fn lemma_layout_names_differ()
    ensures
        "usages"@ != "search"@,
        "usages"@ != "refs"@,
        "callers"@ != "search"@,
        "callers"@ != "refs"@,
        "callers"@ != "usages"@,
        "symbol"@ != "search"@,
        "symbol"@ != "refs"@,
        "symbol"@ != "usages"@,
        "symbol"@ != "callers"@,
        "class"@ != "search"@,
        "class"@ != "refs"@,
        "class"@ != "usages"@,
        "class"@ != "callers"@,
        "implementations"@ != "search"@,
        "implementations"@ != "refs"@,
        "implementations"@ != "usages"@,
        "implementations"@ != "callers"@,
        "file"@ != "search"@,
        "file"@ != "refs"@,
        "file"@ != "usages"@,
        "file"@ != "callers"@,
        "file"@ != "symbol"@,
        "file"@ != "class"@,
        "file"@ != "implementations"@,
        "find_file"@ != "search"@,
        "find_file"@ != "refs"@,
        "find_file"@ != "usages"@,
        "find_file"@ != "callers"@,
        "find_file"@ != "symbol"@,
        "find_file"@ != "class"@,
        "find_file"@ != "implementations"@,
        "find_file"@ != "file"@,
{
    reveal_strlit("search");
    reveal_strlit("refs");
    reveal_strlit("usages");
    reveal_strlit("callers");
    reveal_strlit("symbol");
    reveal_strlit("class");
    reveal_strlit("implementations");
    reveal_strlit("file");
    reveal_strlit("find_file");
    assert("usages"@[0] != "search"@[0]);
    assert("usages"@.len() != "refs"@.len());
    assert("callers"@.len() != "search"@.len());
    assert("callers"@.len() != "refs"@.len());
    assert("callers"@.len() != "usages"@.len());
    assert("symbol"@[1] != "search"@[1]);
    assert("symbol"@.len() != "refs"@.len());
    assert("symbol"@[0] != "usages"@[0]);
    assert("symbol"@.len() != "callers"@.len());
    assert("class"@.len() != "search"@.len());
    assert("class"@.len() != "refs"@.len());
    assert("class"@.len() != "usages"@.len());
    assert("class"@.len() != "callers"@.len());
    assert("implementations"@.len() != "search"@.len());
    assert("implementations"@.len() != "refs"@.len());
    assert("implementations"@.len() != "usages"@.len());
    assert("implementations"@.len() != "callers"@.len());
    assert("file"@.len() != "search"@.len());
    assert("file"@[0] != "refs"@[0]);
    assert("file"@.len() != "usages"@.len());
    assert("file"@.len() != "callers"@.len());
    assert("file"@.len() != "symbol"@.len());
    assert("file"@.len() != "class"@.len());
    assert("file"@.len() != "implementations"@.len());
    assert("find_file"@.len() != "search"@.len());
    assert("find_file"@.len() != "refs"@.len());
    assert("find_file"@.len() != "usages"@.len());
    assert("find_file"@.len() != "callers"@.len());
    assert("find_file"@.len() != "symbol"@.len());
    assert("find_file"@.len() != "class"@.len());
    assert("find_file"@.len() != "implementations"@.len());
    assert("find_file"@.len() != "file"@.len());
}

/// The responses of `usages` and `callers` are lists of references, those of
/// `symbol`, `class` and `implementations` lists of symbols, and those of
/// `file` and `find_file` lists of file names: each item of such a response
/// is shown, unindented.
pub proof fn law_lists_show_every_item(tool: Seq<char>, v: JsonView, k: int)
    requires
        v matches JsonView::Array(a) && 0 <= k < a.len(),
    ensures
        (tool == "usages"@ || tool == "callers"@) ==> (spec_render(tool, v) is Some && occurs_in(
            spec_render(tool, v)->0,
            shown_reference(v->Array_0[k], ""@),
        )),
        (tool == "symbol"@ || tool == "class"@ || tool == "implementations"@) ==> (spec_render(
            tool,
            v,
        ) is Some && occurs_in(spec_render(tool, v)->0, shown_symbol(v->Array_0[k], ""@))),
        (tool == "file"@ || tool == "find_file"@) && v->Array_0[k] is Str ==> (spec_render(
            tool,
            v,
        ) is Some && occurs_in(spec_render(tool, v)->0, ""@ + v->Array_0[k]->Str_0 + "\n"@)),
{
    lemma_layout_names_differ();
    let a = v->Array_0;
    lemma_shown_lines(a[k], ""@);
    lemma_concat_map_has_item(a, item_lines(LineKind::Ref, ""@), k);
    lemma_concat_map_has_item(a, item_lines(LineKind::Symbol, ""@), k);
    lemma_concat_map_has_item(a, item_lines(LineKind::File, ""@), k);
}

/// The `stats` layout: the project (`?` when missing) on the first line, then
/// the known counters in their fixed order (each exactly when positive), then
/// the database size in MiB when positive, then the database path when
/// non-empty.
pub proof fn law_stats_layout(v: JsonView)
    requires
        spec_has_stats_shape(v),
    ensures
        ({
            let db_size = i64_or(field_i64(v, "db_size_bytes"@), 0);
            let db_path = str_or(field_str(v, "db_path"@), ""@);
            spec_render_stats(v) == Some(
                "project: "@ + str_or(field_str(v, "project"@), "?"@) + "\n"@ + match spec_get(
                    v,
                    "stats"@,
                ) {
                    Some(s) => shown_counters(s, 8),
                    None => Seq::empty(),
                } + if db_size > 0 {
                    "db_size_mb: "@ + spec_mib_text(db_size as nat) + "\n"@
                } else {
                    Seq::empty()
                } + if db_path.len() > 0 {
                    "db_path: "@ + db_path + "\n"@
                } else {
                    Seq::empty()
                },
            )
        }),
{
    if spec_get(v, "stats"@) is Some {
        law_stats_counters_in_fixed_order(v);
    }
}

} // verus!

//! The hero section of a landing page: the JSON payload that the editor saves and
//! the form fields it loads from one.
use vstd::prelude::*;
use crate::json::{Json, JsonV, jv, first_match, field, as_items, text_or_empty, views};
use crate::text::{
    is_white, trim_spec, trim_start_spec, trim_end_spec, chars_of, string_of, trim, push_char,
    owned, char_len, append, opt_view,
};

verus! {

// ── specifications ───────────────────────────────────────────────────────────

/// The pieces of `s` between line feeds (one more piece than there are line feeds).
pub open spec fn split_lines(s: Seq<char>) -> Seq<Seq<char>>
    decreases s.len(),
{
    if s.len() == 0 {
        seq![Seq::empty()]
    } else if s.last() == '\n' {
        split_lines(s.drop_last()).push(Seq::empty())
    } else {
        let r = split_lines(s.drop_last());
        r.update(r.len() - 1, r.last().push(s.last()))
    }
}

/// The pieces, trimmed, without the ones that are empty once trimmed.
pub open spec fn kept_lines(segs: Seq<Seq<char>>) -> Seq<Seq<char>>
    decreases segs.len(),
{
    if segs.len() == 0 {
        Seq::empty()
    } else if trim_spec(segs.last()).len() > 0 {
        kept_lines(segs.drop_last()).push(trim_spec(segs.last()))
    } else {
        kept_lines(segs.drop_last())
    }
}

/// The proof items written one per line: each line trimmed, blank lines dropped.
pub open spec fn proof_lines(s: Seq<char>) -> Seq<Seq<char>> {
    kept_lines(split_lines(s))
}

/// Lines joined with line feeds.
pub open spec fn join_lines(lines: Seq<Seq<char>>) -> Seq<char>
    decreases lines.len(),
{
    if lines.len() == 0 {
        Seq::empty()
    } else if lines.len() == 1 {
        lines[0]
    } else {
        join_lines(lines.drop_last()) + seq!['\n'] + lines.last()
    }
}

/// String values for each text.
pub open spec fn str_values(lines: Seq<Seq<char>>) -> Seq<JsonV> {
    lines.map_values(|l: Seq<char>| JsonV::Str(l))
}

/// The string values among `items`, in order (`filter_map(as_str)`).
pub open spec fn texts_of(items: Seq<JsonV>) -> Seq<Seq<char>>
    decreases items.len(),
{
    if items.len() == 0 {
        Seq::empty()
    } else {
        match items.last() {
            JsonV::Str(s) => texts_of(items.drop_last()).push(s),
            _ => texts_of(items.drop_last()),
        }
    }
}

/// The texts of an array member of a payload; none when it is missing or not an array.
pub open spec fn text_list(payload: JsonV, key: Seq<char>) -> Seq<Seq<char>> {
    match as_items(field(payload, key)) {
        Some(items) => texts_of(items),
        None => Seq::empty(),
    }
}

/// The members of a hero payload, in the order they are written; `cta_label`
/// comes last and only when given.
pub open spec fn hero_entries(
    eyebrow: Seq<char>,
    headline: Seq<char>,
    headline_accent: Seq<char>,
    subhead: Seq<char>,
    proof_items: Seq<char>,
    pricing_eyebrow: Seq<char>,
    pricing_heading: Seq<char>,
    pricing_subtitle: Seq<char>,
    cta_label: Option<Seq<char>>,
) -> Seq<(Seq<char>, JsonV)> {
    let base = seq![
        ("eyebrow"@, JsonV::Str(eyebrow)),
        ("headline"@, JsonV::Str(headline)),
        ("headline_accent"@, JsonV::Str(headline_accent)),
        ("subhead"@, JsonV::Str(subhead)),
        ("proof_items"@, JsonV::Array(str_values(proof_lines(proof_items)))),
        ("pricing_eyebrow"@, JsonV::Str(pricing_eyebrow)),
        ("pricing_heading"@, JsonV::Str(pricing_heading)),
        ("pricing_subtitle"@, JsonV::Str(pricing_subtitle)),
    ];
    match cta_label {
        Some(c) => base.push(("cta_label"@, JsonV::Str(c))),
        None => base,
    }
}

/// The hero payload `build_hero_payload` makes.
pub open spec fn hero_spec(
    eyebrow: Seq<char>,
    headline: Seq<char>,
    headline_accent: Seq<char>,
    subhead: Seq<char>,
    proof_items: Seq<char>,
    pricing_eyebrow: Seq<char>,
    pricing_heading: Seq<char>,
    pricing_subtitle: Seq<char>,
    cta_label: Option<Seq<char>>,
) -> JsonV {
    JsonV::Object(
        hero_entries(
            eyebrow,
            headline,
            headline_accent,
            subhead,
            proof_items,
            pricing_eyebrow,
            pricing_heading,
            pricing_subtitle,
            cta_label,
        ),
    )
}

/// The editor's hero form fields.
#[derive(Debug, PartialEq)]
pub struct HeroForm {
    pub eyebrow: String,
    pub headline: String,
    pub headline_accent: String,
    pub subhead: String,
    pub proof_items: String,
    pub pricing_eyebrow: String,
    pub pricing_heading: String,
    pub pricing_subtitle: String,
    pub cta_label: String,
}

/// The form fields the editor loads from a hero payload: each text member
/// (empty when missing), and the proof items one per line.
pub open spec fn form_fields(p: JsonV) -> Seq<Seq<char>> {
    seq![
        text_or_empty(p, "eyebrow"@),
        text_or_empty(p, "headline"@),
        text_or_empty(p, "headline_accent"@),
        text_or_empty(p, "subhead"@),
        join_lines(text_list(p, "proof_items"@)),
        text_or_empty(p, "pricing_eyebrow"@),
        text_or_empty(p, "pricing_heading"@),
        text_or_empty(p, "pricing_subtitle"@),
        text_or_empty(p, "cta_label"@),
    ]
}

/// The views of a form's fields, in the order of `form_fields`.
pub open spec fn form_view(f: HeroForm) -> Seq<Seq<char>> {
    seq![
        f.eyebrow@,
        f.headline@,
        f.headline_accent@,
        f.subhead@,
        f.proof_items@,
        f.pricing_eyebrow@,
        f.pricing_heading@,
        f.pricing_subtitle@,
        f.cta_label@,
    ]
}

/// The payload that a form (given as its field texts) saves to.
pub open spec fn saved_payload(f: Seq<Seq<char>>) -> JsonV {
    hero_spec(f[0], f[1], f[2], f[3], f[4], f[5], f[6], f[7], Some(f[8]))
}

// ── executable ───────────────────────────────────────────────────────────────

/// The proof items of a multi-line text: each line trimmed, blank lines dropped.
pub fn proof_item_lines(s: &str) -> (res: Vec<String>)
    ensures
        res@.map_values(|x: String| x@) == proof_lines(s@),
{
    let cs = chars_of(s);
    let mut out: Vec<String> = Vec::new();
    let mut cur: Vec<char> = Vec::new();
    let mut i: usize = 0;
    while i < cs.len()
        invariant
            cs@ == s@,
            i <= cs.len(),
            split_lines(cs@.take(i as int)).last() == cur@,
            split_lines(cs@.take(i as int)).len() >= 1,
            out@.map_values(|x: String| x@) == kept_lines(split_lines(cs@.take(i as int)).drop_last()),
        decreases cs.len() - i,
    {
        let c = cs[i];
        let ghost prev = cs@.take(i as int);
        assert(cs@.take(i + 1).drop_last() =~= prev);
        if c == '\n' {
            let line = string_of(&cur);
            let t = trim(line.as_str());
            let ghost before = out@;
            if char_len(t.as_str()) > 0 {
                out.push(t);
                assert(out@.map_values(|x: String| x@) =~= before.map_values(|x: String| x@).push(
                    trim_spec(cur@),
                ));
            }
            cur = Vec::new();
            proof {
                let sp = split_lines(prev);
                assert(split_lines(cs@.take(i + 1)) == sp.push(Seq::empty()));
                assert(sp.push(Seq::empty()).drop_last() =~= sp);
                assert(sp =~= sp.drop_last().push(sp.last()));
                assert(cur@ =~= Seq::<char>::empty());
            }
        } else {
            cur.push(c);
            proof {
                let sp = split_lines(prev);
                let nsp = sp.update(sp.len() - 1, sp.last().push(c));
                assert(split_lines(cs@.take(i + 1)) == nsp);
                assert(nsp.drop_last() =~= sp.drop_last());
            }
        }
        i = i + 1;
    }
    assert(cs@.take(cs.len() as int) =~= s@);
    let line = string_of(&cur);
    let t = trim(line.as_str());
    let ghost before = out@;
    if char_len(t.as_str()) > 0 {
        out.push(t);
        assert(out@.map_values(|x: String| x@) =~= before.map_values(|x: String| x@).push(
            trim_spec(cur@),
        ));
    }
    proof {
        let sp = split_lines(s@);
        assert(sp =~= sp.drop_last().push(sp.last()));
    }
    out
}

/// String values for a list of texts.
fn string_values(lines: &Vec<String>) -> (res: Vec<Json>)
    ensures
        views(res@) == str_values(lines@.map_values(|x: String| x@)),
{
    let mut out: Vec<Json> = Vec::new();
    let mut i: usize = 0;
    while i < lines.len()
        invariant
            i <= lines.len(),
            out@.len() == i,
            forall|k: int| 0 <= k < i ==> jv(#[trigger] out@[k]) == JsonV::Str(lines@[k]@),
        decreases lines.len() - i,
    {
        out.push(Json::Str(lines[i].clone()));
        i = i + 1;
    }
    assert(views(out@) =~= str_values(lines@.map_values(|x: String| x@)));
    out
}

/// The hero payload for the editor's fields; the proof items are written one per
/// line, and `cta_label` is present only when given.
pub fn build_hero_payload(
    eyebrow: String,
    headline: String,
    headline_accent: String,
    subhead: String,
    proof_items: String,
    pricing_eyebrow: String,
    pricing_heading: String,
    pricing_subtitle: String,
    cta_label: Option<String>,
) -> (res: Json)
    ensures
        res@ == hero_spec(
            eyebrow@,
            headline@,
            headline_accent@,
            subhead@,
            proof_items@,
            pricing_eyebrow@,
            pricing_heading@,
            pricing_subtitle@,
            opt_view(cta_label),
        ),
{
    let lines = proof_item_lines(proof_items.as_str());
    let items = string_values(&lines);
    let ghost items_v = views(items@);
    let ghost expected = hero_entries(
        eyebrow@,
        headline@,
        headline_accent@,
        subhead@,
        proof_items@,
        pricing_eyebrow@,
        pricing_heading@,
        pricing_subtitle@,
        opt_view(cta_label),
    );
    let mut entries: Vec<(String, Json)> = Vec::new();
    entries.push((owned("eyebrow"), Json::Str(eyebrow)));
    entries.push((owned("headline"), Json::Str(headline)));
    entries.push((owned("headline_accent"), Json::Str(headline_accent)));
    entries.push((owned("subhead"), Json::Str(subhead)));
    let items_json = Json::Array(items);
    assert(jv(items_json)->Array_0 =~= items_v);
    entries.push((owned("proof_items"), items_json));
    entries.push((owned("pricing_eyebrow"), Json::Str(pricing_eyebrow)));
    entries.push((owned("pricing_heading"), Json::Str(pricing_heading)));
    entries.push((owned("pricing_subtitle"), Json::Str(pricing_subtitle)));
    match cta_label {
        Some(c) => {
            entries.push((owned("cta_label"), Json::Str(c)));
        },
        None => {},
    }
    let res = Json::Object(entries);
    proof {
        let got = jv(res)->Object_0;
        assert(got.len() == expected.len());
        assert forall|k: int| 0 <= k < got.len() implies got[k] == expected[k] by {
            assert(got[k] == (entries@[k].0@, jv(entries@[k].1)));
        }
        assert(got =~= expected);
    }
    res
}

/// The hero payload of a new page: every field empty, with an empty call to action.
pub fn empty_hero_payload() -> (res: Json)
    ensures
        res@ == hero_spec(
            Seq::empty(),
            Seq::empty(),
            Seq::empty(),
            Seq::empty(),
            Seq::empty(),
            Seq::empty(),
            Seq::empty(),
            Seq::empty(),
            Some(Seq::empty()),
        ),
{
    build_hero_payload(
        String::new(),
        String::new(),
        String::new(),
        String::new(),
        String::new(),
        String::new(),
        String::new(),
        String::new(),
        Some(String::new()),
    )
}

/// The text of a member of a hero payload; empty when it is missing or not a string.
pub fn hero_string(payload: &Json, key: &str) -> (res: String)
    ensures
        res@ == text_or_empty(payload@, key@),
{
    match payload.get(key) {
        Some(v) => match v.as_str() {
            Some(s) => owned(s),
            None => String::new(),
        },
        None => String::new(),
    }
}

/// The texts of an array member of a hero payload (its non-string items skipped).
pub fn hero_string_array(payload: &Json, key: &str) -> (res: Vec<String>)
    ensures
        res@.map_values(|x: String| x@) == text_list(payload@, key@),
{
    let mut out: Vec<String> = Vec::new();
    match payload.get(key) {
        Some(v) => match v.as_array() {
            Some(items) => {
                let ghost iv = views(items@);
                let mut i: usize = 0;
                while i < items.len()
                    invariant
                        i <= items.len(),
                        iv == views(items@),
                        out@.map_values(|x: String| x@) == texts_of(iv.take(i as int)),
                    decreases items.len() - i,
                {
                    let ghost before = out@;
                    assert(iv.take(i + 1).drop_last() =~= iv.take(i as int));
                    assert(iv.take(i + 1).last() == jv(items@[i as int]));
                    match items[i].as_str() {
                        Some(s) => {
                            out.push(owned(s));
                            assert(out@.map_values(|x: String| x@) =~= before.map_values(
                                |x: String| x@,
                            ).push(s@));
                        },
                        None => {},
                    }
                    i = i + 1;
                }
                assert(iv.take(items.len() as int) =~= iv);
                out
            },
            None => {
                assert(out@.map_values(|x: String| x@) =~= Seq::<Seq<char>>::empty());
                out
            },
        },
        None => {
            assert(out@.map_values(|x: String| x@) =~= Seq::<Seq<char>>::empty());
            out
        },
    }
}

/// Lines joined with line feeds (`lines.join("\n")`).
pub fn join_newlines(lines: &Vec<String>) -> (res: String)
    ensures
        res@ == join_lines(lines@.map_values(|x: String| x@)),
{
    let ghost ls = lines@.map_values(|x: String| x@);
    let mut out = String::new();
    let mut i: usize = 0;
    while i < lines.len()
        invariant
            i <= lines.len(),
            ls == lines@.map_values(|x: String| x@),
            out@ == join_lines(ls.take(i as int)),
        decreases lines.len() - i,
    {
        assert(ls.take(i + 1).drop_last() =~= ls.take(i as int));
        if i > 0 {
            push_char(&mut out, '\n');
        }
        append(&mut out, lines[i].as_str());
        i = i + 1;
        proof {
            let t = ls.take(i as int);
            if i == 1 {
                assert(t =~= seq![ls[0]]);
                assert(ls.take(0) =~= Seq::<Seq<char>>::empty());
            }
        }
    }
    assert(ls.take(lines.len() as int) =~= ls);
    out
}

/// The editor's form fields for a page's hero payload (the empty payload when
/// the page has none).
pub fn hero_form(payload: Option<&Json>) -> (res: HeroForm)
    ensures
        form_view(res) == form_fields(
            match payload {
                Some(p) => p@,
                None => saved_payload(
                    seq![
                        Seq::empty(),
                        Seq::empty(),
                        Seq::empty(),
                        Seq::empty(),
                        Seq::empty(),
                        Seq::empty(),
                        Seq::empty(),
                        Seq::empty(),
                        Seq::empty(),
                    ],
                ),
            },
        ),
{
    let empty;
    let p: &Json = match payload {
        Some(p) => p,
        None => {
            empty = empty_hero_payload();
            &empty
        },
    };
    let proof_list = hero_string_array(p, "proof_items");
    let res = HeroForm {
        eyebrow: hero_string(p, "eyebrow"),
        headline: hero_string(p, "headline"),
        headline_accent: hero_string(p, "headline_accent"),
        subhead: hero_string(p, "subhead"),
        proof_items: join_newlines(&proof_list),
        pricing_eyebrow: hero_string(p, "pricing_eyebrow"),
        pricing_heading: hero_string(p, "pricing_heading"),
        pricing_subtitle: hero_string(p, "pricing_subtitle"),
        cta_label: hero_string(p, "cta_label"),
    };
    assert(form_view(res) =~= form_fields(p@));
    res
}

/// The hero payload the editor saves for its form fields (the call to action is
/// always written).
pub fn hero_payload(form: &HeroForm) -> (res: Json)
    ensures
        res@ == saved_payload(form_view(*form)),
{
    build_hero_payload(
        form.eyebrow.clone(),
        form.headline.clone(),
        form.headline_accent.clone(),
        form.subhead.clone(),
        form.proof_items.clone(),
        form.pricing_eyebrow.clone(),
        form.pricing_heading.clone(),
        form.pricing_subtitle.clone(),
        Some(form.cta_label.clone()),
    )
}

// ── lemmas ───────────────────────────────────────────────────────────────────

/// The first entry with a key is found where it stands.
pub proof fn lemma_first_match_at(es: Seq<(Seq<char>, JsonV)>, key: Seq<char>, i: int)
    requires
        0 <= i < es.len(),
        es[i].0 == key,
        forall|k: int| 0 <= k < i ==> es[k].0 != key,
    ensures
        first_match(es, key) == Some(es[i].1),
    decreases i,
{
    if i > 0 {
        lemma_first_match_at(es.drop_first(), key, i - 1);
    }
}

/// No entry has the key.
pub proof fn lemma_first_match_none(es: Seq<(Seq<char>, JsonV)>, key: Seq<char>)
    requires
        forall|k: int| 0 <= k < es.len() ==> es[k].0 != key,
    ensures
        first_match(es, key) is None,
    decreases es.len(),
{
    if es.len() > 0 {
        lemma_first_match_none(es.drop_first(), key);
    }
}

proof fn lemma_texts_of_str_values(lines: Seq<Seq<char>>)
    ensures
        texts_of(str_values(lines)) == lines,
    decreases lines.len(),
{
    if lines.len() > 0 {
        lemma_texts_of_str_values(lines.drop_last());
        assert(str_values(lines).drop_last() =~= str_values(lines.drop_last()));
        assert(lines.drop_last().push(lines.last()) =~= lines);
    } else {
        assert(str_values(lines) =~= Seq::<JsonV>::empty());
    }
}

/// Trimming the front keeps a suffix whose first character is not whitespace.
proof fn lemma_trim_start(s: Seq<char>)
    ensures
        trim_start_spec(s).len() <= s.len(),
        trim_start_spec(s) == s.subrange(s.len() - trim_start_spec(s).len(), s.len() as int),
        trim_start_spec(s).len() > 0 ==> !is_white(trim_start_spec(s)[0]),
    decreases s.len(),
{
    if s.len() > 0 && is_white(s[0]) {
        lemma_trim_start(s.drop_first());
        let r = trim_start_spec(s.drop_first());
        assert(s.drop_first().subrange(s.len() - 1 - r.len(), s.len() - 1) =~= s.subrange(
            s.len() - r.len(),
            s.len() as int,
        ));
    } else {
        assert(s.subrange(0, s.len() as int) =~= s);
    }
}

/// Trimming the back keeps a prefix whose last character is not whitespace.
proof fn lemma_trim_end(s: Seq<char>)
    ensures
        trim_end_spec(s).len() <= s.len(),
        trim_end_spec(s) == s.take(trim_end_spec(s).len() as int),
        trim_end_spec(s).len() > 0 ==> !is_white(trim_end_spec(s).last()),
    decreases s.len(),
{
    if s.len() > 0 && is_white(s.last()) {
        lemma_trim_end(s.drop_last());
        let r = trim_end_spec(s.drop_last());
        assert(s.drop_last().take(r.len() as int) =~= s.take(r.len() as int));
    } else {
        assert(s.take(s.len() as int) =~= s);
    }
}

/// A trimmed text: it keeps characters of the untrimmed text, its ends are not
/// whitespace, and trimming it again changes nothing.
proof fn lemma_trim_shape(s: Seq<char>)
    ensures
        forall|k: int| 0 <= k < trim_spec(s).len() ==> exists|m: int| 0 <= m < s.len() && s[m]
            == #[trigger] trim_spec(s)[k],
        trim_spec(trim_spec(s)) == trim_spec(s),
{
    lemma_trim_start(s);
    let u = trim_start_spec(s);
    lemma_trim_end(u);
    let r = trim_end_spec(u);
    let off: int = s.len() - u.len();
    assert forall|k: int| 0 <= k < r.len() implies exists|m: int| 0 <= m < s.len() && s[m]
        == #[trigger] r[k] by {
        assert(r[k] == u[k]);
        assert(u[k] == s[off + k]);
    }
    if r.len() > 0 {
        assert(r[0] == u[0]);
        assert(trim_start_spec(r) == r);
        assert(trim_end_spec(r) == r);
    } else {
        assert(trim_start_spec(r) == r);
        assert(trim_end_spec(r) == r);
    }
}

/// A text without line feeds is a single piece.
proof fn lemma_split_single(x: Seq<char>)
    requires
        forall|k: int| 0 <= k < x.len() ==> x[k] != '\n',
    ensures
        split_lines(x) == seq![x],
    decreases x.len(),
{
    if x.len() > 0 {
        lemma_split_single(x.drop_last());
        assert(x.drop_last().push(x.last()) =~= x);
        assert(seq![x.drop_last()].last() == x.drop_last());
        assert(seq![x.drop_last()].update(0, x.drop_last().push(x.last())) =~= seq![x]);
    } else {
        assert(x =~= Seq::<char>::empty());
    }
}

/// A line feed followed by a text without line feeds adds that text as a piece.
proof fn lemma_split_append(a: Seq<char>, x: Seq<char>)
    requires
        forall|k: int| 0 <= k < x.len() ==> x[k] != '\n',
    ensures
        split_lines(a + seq!['\n'] + x) == split_lines(a).push(x),
    decreases x.len(),
{
    let t = a + seq!['\n'] + x;
    if x.len() == 0 {
        assert(t.drop_last() =~= a);
        assert(x =~= Seq::<char>::empty());
    } else {
        lemma_split_append(a, x.drop_last());
        assert(t.drop_last() =~= a + seq!['\n'] + x.drop_last());
        let r = split_lines(a).push(x.drop_last());
        assert(x.drop_last().push(x.last()) =~= x);
        assert(t.last() == x.last());
        assert(x.last() == x[x.len() - 1]);
        assert(r.last() == x.drop_last());
        assert(r.update(r.len() - 1, r.last().push(x.last())) =~= split_lines(a).push(x));
    }
}

/// Pieces never hold a line feed.
proof fn lemma_split_pieces(s: Seq<char>)
    ensures
        split_lines(s).len() >= 1,
        forall|i: int, k: int|
            0 <= i < split_lines(s).len() && 0 <= k < split_lines(s)[i].len() ==> #[trigger] split_lines(
                s,
            )[i][k] != '\n',
    decreases s.len(),
{
    if s.len() > 0 {
        lemma_split_pieces(s.drop_last());
    }
}

/// Kept lines are non-empty, hold no line feed and are already trimmed.
proof fn lemma_kept_shape(segs: Seq<Seq<char>>)
    requires
        forall|i: int, k: int| 0 <= i < segs.len() && 0 <= k < segs[i].len() ==> #[trigger] segs[i][k] != '\n',
    ensures
        forall|i: int| 0 <= i < kept_lines(segs).len() ==> (#[trigger] kept_lines(segs)[i]).len() > 0
            && trim_spec(kept_lines(segs)[i]) == kept_lines(segs)[i] && forall|k: int|
            0 <= k < kept_lines(segs)[i].len() ==> kept_lines(segs)[i][k] != '\n',
    decreases segs.len(),
{
    if segs.len() > 0 {
        let init = segs.drop_last();
        assert forall|i: int, k: int| 0 <= i < init.len() && 0 <= k < init[i].len() implies #[trigger] init[i][k]
            != '\n' by {
            assert(init[i] == segs[i]);
        }
        lemma_kept_shape(init);
        let last = segs.last();
        lemma_trim_shape(last);
        let t = trim_spec(last);
        assert forall|k: int| 0 <= k < t.len() implies t[k] != '\n' by {
            let m = choose|m: int| 0 <= m < last.len() && last[m] == t[k];
            assert(segs[segs.len() - 1][m] != '\n');
        }
        let r = kept_lines(segs);
        if t.len() > 0 {
            assert(r == kept_lines(init).push(t));
            assert forall|i: int| 0 <= i < r.len() implies (#[trigger] r[i]).len() > 0 && trim_spec(r[i])
                == r[i] && forall|k: int| 0 <= k < r[i].len() ==> r[i][k] != '\n' by {
                if i < r.len() - 1 {
                    assert(r[i] == kept_lines(init)[i]);
                }
            }
        } else {
            assert(r == kept_lines(init));
        }
    }
}

/// Lines that are non-empty, trimmed and free of line feeds come back unchanged
/// from being joined and split again.
proof fn lemma_join_then_keep(lines: Seq<Seq<char>>)
    requires
        forall|i: int| 0 <= i < lines.len() ==> (#[trigger] lines[i]).len() > 0 && trim_spec(lines[i])
            == lines[i] && forall|k: int| 0 <= k < lines[i].len() ==> lines[i][k] != '\n',
    ensures
        proof_lines(join_lines(lines)) == lines,
    decreases lines.len(),
{
    if lines.len() == 0 {
        assert(split_lines(Seq::<char>::empty()) == seq![Seq::<char>::empty()]);
        let segs = seq![Seq::<char>::empty()];
        assert(segs.drop_last() =~= Seq::<Seq<char>>::empty());
        assert(trim_start_spec(Seq::<char>::empty()) == Seq::<char>::empty());
        assert(trim_end_spec(Seq::<char>::empty()) == Seq::<char>::empty());
        assert(segs.last() == Seq::<char>::empty());
        assert(kept_lines(segs) == kept_lines(segs.drop_last()));
        assert(kept_lines(Seq::<Seq<char>>::empty()) == Seq::<Seq<char>>::empty());
        assert(lines =~= Seq::<Seq<char>>::empty());
    } else if lines.len() == 1 {
        let x = lines[0];
        lemma_split_single(x);
        assert(seq![x].drop_last() =~= Seq::<Seq<char>>::empty());
        assert(seq![x].last() == x);
        assert(trim_spec(x) == x);
        assert(kept_lines(Seq::<Seq<char>>::empty()) == Seq::<Seq<char>>::empty());
        assert(kept_lines(seq![x]) == Seq::<Seq<char>>::empty().push(x));
        assert(Seq::<Seq<char>>::empty().push(x) =~= lines);
    } else {
        let init = lines.drop_last();
        let x = lines.last();
        assert forall|i: int| 0 <= i < init.len() implies (#[trigger] init[i]).len() > 0 && trim_spec(init[i])
            == init[i] && forall|k: int| 0 <= k < init[i].len() ==> init[i][k] != '\n' by {
            assert(init[i] == lines[i]);
        }
        lemma_join_then_keep(init);
        assert(lines[lines.len() - 1] == x);
        lemma_split_append(join_lines(init), x);
        let sp = split_lines(join_lines(init)).push(x);
        assert(join_lines(lines) == join_lines(init) + seq!['\n'] + x);
        assert(sp.drop_last() =~= split_lines(join_lines(init)));
        assert(sp.last() == x);
        assert(x.len() > 0 && trim_spec(x) == x);
        assert(kept_lines(sp) == kept_lines(sp.drop_last()).push(x));
        assert(init.push(x) =~= lines);
    }
}

// ── laws ─────────────────────────────────────────────────────────────────────

/// Proof items written one per line survive being loaded into the editor
/// (joined with line feeds) and saved again (split, trimmed, blanks dropped).
pub proof fn law_proof_lines_stable(s: Seq<char>)
    ensures
        proof_lines(join_lines(proof_lines(s))) == proof_lines(s),
{
    lemma_split_pieces(s);
    lemma_kept_shape(split_lines(s));
    lemma_join_then_keep(proof_lines(s));
}

/// Every field written into a hero payload reads back from it: each text
/// member, the proof items as their kept lines, and the call to action when given.
pub proof fn law_hero_fields_read_back(
    eyebrow: Seq<char>,
    headline: Seq<char>,
    headline_accent: Seq<char>,
    subhead: Seq<char>,
    proof_items: Seq<char>,
    pricing_eyebrow: Seq<char>,
    pricing_heading: Seq<char>,
    pricing_subtitle: Seq<char>,
    cta_label: Option<Seq<char>>,
)
    ensures
        ({
            let p = hero_spec(
                eyebrow,
                headline,
                headline_accent,
                subhead,
                proof_items,
                pricing_eyebrow,
                pricing_heading,
                pricing_subtitle,
                cta_label,
            );
            &&& text_or_empty(p, "eyebrow"@) == eyebrow
            &&& text_or_empty(p, "headline"@) == headline
            &&& text_or_empty(p, "headline_accent"@) == headline_accent
            &&& text_or_empty(p, "subhead"@) == subhead
            &&& text_list(p, "proof_items"@) == proof_lines(proof_items)
            &&& text_or_empty(p, "pricing_eyebrow"@) == pricing_eyebrow
            &&& text_or_empty(p, "pricing_heading"@) == pricing_heading
            &&& text_or_empty(p, "pricing_subtitle"@) == pricing_subtitle
            &&& text_or_empty(p, "cta_label"@) == match cta_label {
                Some(c) => c,
                None => Seq::empty(),
            }
        }),
{
    reveal_strlit("eyebrow");
    reveal_strlit("headline");
    reveal_strlit("headline_accent");
    reveal_strlit("subhead");
    reveal_strlit("proof_items");
    reveal_strlit("pricing_eyebrow");
    reveal_strlit("pricing_heading");
    reveal_strlit("pricing_subtitle");
    reveal_strlit("cta_label");
    let es = hero_entries(
        eyebrow,
        headline,
        headline_accent,
        subhead,
        proof_items,
        pricing_eyebrow,
        pricing_heading,
        pricing_subtitle,
        cta_label,
    );
    assert(es[0].0 == "eyebrow"@);
    assert(es[1].0 == "headline"@);
    assert(es[2].0 == "headline_accent"@);
    assert(es[3].0 == "subhead"@);
    assert(es[4].0 == "proof_items"@);
    assert(es[5].0 == "pricing_eyebrow"@);
    assert(es[6].0 == "pricing_heading"@);
    assert(es[7].0 == "pricing_subtitle"@);
    assert("eyebrow"@[0] != "subhead"@[0]);
    assert("headline_accent"@[0] != "pricing_eyebrow"@[0]);
    assert("headline_accent"@[0] != "pricing_heading"@[0]);
    assert("pricing_eyebrow"@[8] != "pricing_heading"@[8]);
    lemma_first_match_at(es, "eyebrow"@, 0);
    lemma_first_match_at(es, "headline"@, 1);
    lemma_first_match_at(es, "headline_accent"@, 2);
    lemma_first_match_at(es, "subhead"@, 3);
    lemma_first_match_at(es, "proof_items"@, 4);
    lemma_first_match_at(es, "pricing_eyebrow"@, 5);
    lemma_first_match_at(es, "pricing_heading"@, 6);
    lemma_first_match_at(es, "pricing_subtitle"@, 7);
    lemma_texts_of_str_values(proof_lines(proof_items));
    match cta_label {
        Some(c) => lemma_first_match_at(es, "cta_label"@, 8),
        None => lemma_first_match_none(es, "cta_label"@),
    }
}

/// What the editor loads from a payload it saved, saved again, is that same
/// payload.
pub proof fn law_editor_roundtrip(f: Seq<Seq<char>>)
    requires
        f.len() == 9,
    ensures
        saved_payload(form_fields(saved_payload(f))) == saved_payload(f),
{
    law_hero_fields_read_back(f[0], f[1], f[2], f[3], f[4], f[5], f[6], f[7], Some(f[8]));
    law_proof_lines_stable(f[4]);
    let g = form_fields(saved_payload(f));
    assert(g[4] == join_lines(proof_lines(f[4])));
}

} // verus!

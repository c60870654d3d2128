//! The template engine: compiling a format string into render instructions,
//! and rendering a compiled template against one image's metadata.
//!
//! A format string is segmented into maximal spans — literal runs,
//! two-character `%x` date/time directives, and `{...}` metadata expansions
//! (`{{` escaping a literal open brace) — and each span becomes one
//! [`FmtItem`]. A template that never references the image's original
//! filename gets that reference appended, so every rendered name keeps its
//! provenance.

use vstd::prelude::*;
use vstd::string::StrSliceExecFns;
use vstd::string::StringExecFns;

use crate::datetime::exif_datetime_parses;
use crate::datetime::spec_exif_datetime_valid;
use crate::datetime::spec_strftime;
use crate::datetime::strftime;
use crate::error::ParseError;
use crate::error::ParseErrorType;
use crate::metadata::lookup_key;
use crate::metadata::spec_expand;
use crate::metadata::spec_lookup;
use crate::metadata::ImageMetadata;
use crate::metadata::MetadataKind;
use crate::metadata::MetadataModel;

verus! {

broadcast use vstd::string::group_string_axioms;

/// One compiled render instruction.
#[derive(Debug, PartialEq, Eq)]
pub enum FmtItem {
    /// Opaque text emitted verbatim.
    Literal(String),
    /// A two-character date/time directive such as `%Y`, evaluated against
    /// the image's capture timestamp at render time.
    DateTime(String),
    /// A metadata reference resolved against the record at render time.
    Metadata(MetadataKind),
}

/// The ghost shape of one render instruction.
pub ghost enum SpecFmtItem {
    Literal(Seq<char>),
    DateTime(Seq<char>),
    Metadata(MetadataKind),
}

impl View for FmtItem {
    type V = SpecFmtItem;

    open spec fn view(&self) -> SpecFmtItem {
        match self {
            FmtItem::Literal(s) => SpecFmtItem::Literal(s@),
            FmtItem::DateTime(s) => SpecFmtItem::DateTime(s@),
            FmtItem::Metadata(k) => SpecFmtItem::Metadata(*k),
        }
    }
}

impl DeepView for FmtItem {
    type V = SpecFmtItem;

    open spec fn deep_view(&self) -> SpecFmtItem {
        self.view()
    }
}

/// The shape of a compile failure, before the original string is attached.
pub ghost struct SpecParseFailure {
    pub kind: ParseErrorType,
    pub start: int,
    pub width: int,
}

/// Prepends one instruction to the outcome of scanning the rest.
pub open spec fn spec_cons(item: SpecFmtItem, rest: Result<Seq<SpecFmtItem>, SpecParseFailure>) -> Result<
    Seq<SpecFmtItem>,
    SpecParseFailure,
> {
    match rest {
        Ok(v) => Ok(seq![item] + v),
        Err(e) => Err(e),
    }
}

/// Scans the format string from position `i`, span by span.
///
/// `%` takes exactly one following character as a directive; a `%` that
/// ends the string is an invalid expansion of width one. `{` followed by
/// `{` is a one-character literal brace. Any other `{` opens an expansion
/// whose first body character is consumed unconditionally and whose close
/// is the first `}` after it; a `{}` that ends the string therefore closes
/// with an empty key, which the catalog rejects. A `{` that ends the string
/// leaves the scanner in a state it cannot classify. Any other character
/// begins a maximal literal run.
pub open spec fn spec_scan(s: Seq<char>, i: int) -> Result<Seq<SpecFmtItem>, SpecParseFailure>
    decreases s.len() - i, 0int,
{
    if i >= s.len() {
        Ok(Seq::empty())
    } else {
        let c = s[i];
        if c == '%' {
            if i + 1 < s.len() {
                spec_cons(SpecFmtItem::DateTime(s.subrange(i, i + 2)), spec_scan(s, i + 2))
            } else {
                Err(SpecParseFailure { kind: ParseErrorType::InvalidExpansion, start: i, width: 1 })
            }
        } else if c == '{' {
            if i + 1 >= s.len() {
                Err(SpecParseFailure { kind: ParseErrorType::Unknown, start: i, width: 1 })
            } else if s[i + 1] == '{' {
                spec_cons(SpecFmtItem::Literal(seq!['{']), spec_scan(s, i + 2))
            } else if i + 2 == s.len() && s[i + 1] == '}' {
                Err(SpecParseFailure { kind: ParseErrorType::InvalidExpansion, start: i, width: 2 })
            } else {
                spec_scan_body(s, i + 2, i)
            }
        } else {
            spec_scan_literal(s, i + 1, i)
        }
    }
}

/// Scans for the `}` closing the expansion whose `{` sits at `start`,
/// looking from position `k` on; the span's body began at `start + 1`.
pub open spec fn spec_scan_body(s: Seq<char>, k: int, start: int) -> Result<
    Seq<SpecFmtItem>,
    SpecParseFailure,
>
    decreases s.len() - k, 1int,
{
    if k >= s.len() {
        Err(
            SpecParseFailure {
                kind: ParseErrorType::UnterminatedExpansion,
                start: start,
                width: s.len() - start,
            },
        )
    } else if s[k] == '}' {
        match spec_lookup(s.subrange(start + 1, k)) {
            Some(kind) => spec_cons(SpecFmtItem::Metadata(kind), spec_scan(s, k + 1)),
            None => Err(
                SpecParseFailure {
                    kind: ParseErrorType::InvalidExpansion,
                    start: start,
                    width: k + 1 - start,
                },
            ),
        }
    } else {
        spec_scan_body(s, k + 1, start)
    }
}

/// Extends the literal run begun at `start` up to the next `%` or `{`, or
/// the end of the string; `k` is the next position to look at.
pub open spec fn spec_scan_literal(s: Seq<char>, k: int, start: int) -> Result<
    Seq<SpecFmtItem>,
    SpecParseFailure,
>
    decreases s.len() - k, 1int,
{
    if k >= s.len() || s[k] == '%' || s[k] == '{' {
        spec_cons(SpecFmtItem::Literal(s.subrange(start, k)), spec_scan(s, k))
    } else {
        spec_scan_literal(s, k + 1, start)
    }
}

/// Whether an instruction sequence references the image's original
/// filename.
pub open spec fn spec_has_original(items: Seq<SpecFmtItem>) -> bool {
    exists|j: int|
        0 <= j < items.len() && items[j] == SpecFmtItem::Metadata(
            MetadataKind::ImageOriginalFilename,
        )
}

/// The compiler's final step: a template that never references the original
/// filename gets that reference appended at the end.
pub open spec fn spec_append_original(items: Seq<SpecFmtItem>) -> Seq<SpecFmtItem> {
    if spec_has_original(items) {
        items
    } else {
        items.push(SpecFmtItem::Metadata(MetadataKind::ImageOriginalFilename))
    }
}

/// What compiling a format string yields: the scanned instruction sequence
/// with the original-filename guarantee applied, or the first failure.
pub open spec fn spec_compile(s: Seq<char>) -> Result<Seq<SpecFmtItem>, SpecParseFailure> {
    match spec_scan(s, 0) {
        Ok(items) => Ok(spec_append_original(items)),
        Err(e) => Err(e),
    }
}

/// A scanned prefix glued onto the outcome of scanning the rest.
pub open spec fn spec_glue(
    pre: Seq<SpecFmtItem>,
    rest: Result<Seq<SpecFmtItem>, SpecParseFailure>,
) -> Result<Seq<SpecFmtItem>, SpecParseFailure> {
    match rest {
        Ok(v) => Ok(pre + v),
        Err(e) => Err(e),
    }
}

proof fn lemma_glue_cons(
    pre: Seq<SpecFmtItem>,
    item: SpecFmtItem,
    rest: Result<Seq<SpecFmtItem>, SpecParseFailure>,
)
    ensures
        spec_glue(pre, spec_cons(item, rest)) == spec_glue(pre.push(item), rest),
{
    match rest {
        Ok(v) => {
            assert(pre + (seq![item] + v) =~= pre.push(item) + v);
        },
        Err(_) => {},
    }
}

/// An immutable, validated sequence of render instructions, built once from
/// a format string and shared by every render call.
#[derive(Debug)]
pub struct FilenameFormat(pub Vec<FmtItem>);

impl View for FilenameFormat {
    type V = Seq<SpecFmtItem>;

    open spec fn view(&self) -> Seq<SpecFmtItem> {
        self.0.deep_view()
    }
}

/// How a parse outcome relates to the compilation spec: a success carries
/// exactly the compiled instruction sequence, a failure carries the first
/// failure's kind and span together with the full original string.
pub open spec fn spec_parse_outcome(
    fmt: Seq<char>,
    r: Result<Seq<SpecFmtItem>, ParseError>,
) -> bool {
    match r {
        Ok(items) => spec_compile(fmt) == Ok::<Seq<SpecFmtItem>, SpecParseFailure>(items),
        Err(e) => {
            &&& spec_compile(fmt) is Err
            &&& {
                let f = spec_compile(fmt)->Err_0;
                e.err_ty == f.kind && e.start == f.start && e.width == f.width
            }
            &&& e.original@ == fmt
            &&& e.wf()
        },
    }
}

impl FilenameFormat {
    /// Compiles a format string into a template, or reports the first
    /// problem with its exact span.
    pub fn parse(fmt: &str) -> (r: Result<FilenameFormat, ParseError>)
        ensures
            spec_parse_outcome(
                fmt@,
                match r {
                    Ok(t) => Ok(t@),
                    Err(e) => Err(e),
                },
            ),
    {
        let ghost s = fmt@;
        let n = fmt.unicode_len();
        let mut items: Vec<FmtItem> = Vec::new();
        let mut i: usize = 0;
        while i < n
            invariant
                n == s.len(),
                s == fmt@,
                i <= n,
                spec_scan(s, 0) == spec_glue(items.deep_view(), spec_scan(s, i as int)),
            decreases n - i,
        {
            let ghost pre = items.deep_view();
            let c = fmt.get_char(i);
            if c == '%' {
                if i + 1 < n {
                    let pat = fmt.substring_char(i, i + 2);
                    items.push(FmtItem::DateTime(String::from_str(pat)));
                    proof {
                        assert(items.deep_view() =~= pre.push(
                            SpecFmtItem::DateTime(s.subrange(i as int, i + 2)),
                        ));
                        lemma_glue_cons(
                            pre,
                            SpecFmtItem::DateTime(s.subrange(i as int, i + 2)),
                            spec_scan(s, i + 2),
                        );
                    }
                    i = i + 2;
                } else {
                    return Err(ParseError::invalid_expansion(i, 1, fmt));
                }
            } else if c == '{' {
                if i + 1 >= n {
                    return Err(ParseError::new(i, 1, fmt, ParseErrorType::Unknown));
                }
                let c2 = fmt.get_char(i + 1);
                if c2 == '{' {
                    items.push(FmtItem::Literal(String::from_str("{")));
                    proof {
                        reveal_strlit("{");
                        assert("{"@ =~= seq!['{']);
                        assert(items.deep_view() =~= pre.push(SpecFmtItem::Literal(seq!['{'])));
                        lemma_glue_cons(pre, SpecFmtItem::Literal(seq!['{']), spec_scan(s, i + 2));
                    }
                    i = i + 2;
                } else if i + 2 == n && c2 == '}' {
                    return Err(ParseError::invalid_expansion(i, 2, fmt));
                } else {
                    let mut k: usize = i + 2;
                    while k < n && fmt.get_char(k) != '}'
                        invariant
                            n == s.len(),
                            s == fmt@,
                            i + 2 <= k <= n,
                            spec_scan_body(s, i + 2, i as int) == spec_scan_body(
                                s,
                                k as int,
                                i as int,
                            ),
                        decreases n - k,
                    {
                        k = k + 1;
                    }
                    if k < n {
                        let key = fmt.substring_char(i + 1, k);
                        match lookup_key(key) {
                            Some(kind) => {
                                items.push(FmtItem::Metadata(kind));
                                proof {
                                    assert(items.deep_view() =~= pre.push(
                                        SpecFmtItem::Metadata(kind),
                                    ));
                                    lemma_glue_cons(
                                        pre,
                                        SpecFmtItem::Metadata(kind),
                                        spec_scan(s, k + 1),
                                    );
                                }
                                i = k + 1;
                            },
                            None => {
                                return Err(ParseError::invalid_expansion(i, k + 1 - i, fmt));
                            },
                        }
                    } else {
                        return Err(ParseError::unterminated_expansion(i, n - i, fmt));
                    }
                }
            } else {
                let mut k: usize = i + 1;
                while k < n && fmt.get_char(k) != '%' && fmt.get_char(k) != '{'
                    invariant
                        n == s.len(),
                        s == fmt@,
                        i + 1 <= k <= n,
                        spec_scan_literal(s, i + 1, i as int) == spec_scan_literal(
                            s,
                            k as int,
                            i as int,
                        ),
                    decreases n - k,
                {
                    k = k + 1;
                }
                let lit = fmt.substring_char(i, k);
                items.push(FmtItem::Literal(String::from_str(lit)));
                proof {
                    assert(items.deep_view() =~= pre.push(
                        SpecFmtItem::Literal(s.subrange(i as int, k as int)),
                    ));
                    lemma_glue_cons(
                        pre,
                        SpecFmtItem::Literal(s.subrange(i as int, k as int)),
                        spec_scan(s, k as int),
                    );
                }
                i = k;
            }
        }
        proof {
            assert(spec_scan(s, i as int) == Ok::<Seq<SpecFmtItem>, SpecParseFailure>(
                Seq::empty(),
            ));
            assert(items.deep_view() + Seq::<SpecFmtItem>::empty() =~= items.deep_view());
        }
        let ghost raw = items.deep_view();
        let mut found = false;
        let mut j: usize = 0;
        while j < items.len()
            invariant
                items.deep_view() == raw,
                j <= items.len(),
                found == exists|t: int|
                    0 <= t < j && raw[t] == SpecFmtItem::Metadata(
                        MetadataKind::ImageOriginalFilename,
                    ),
            decreases items.len() - j,
        {
            let is_orig = match &items[j] {
                FmtItem::Metadata(MetadataKind::ImageOriginalFilename) => true,
                _ => false,
            };
            if is_orig {
                found = true;
                proof {
                    assert(raw[j as int] == SpecFmtItem::Metadata(
                        MetadataKind::ImageOriginalFilename,
                    ));
                }
            }
            j = j + 1;
        }
        if !found {
            items.push(FmtItem::Metadata(MetadataKind::ImageOriginalFilename));
            proof {
                assert(!spec_has_original(raw));
                assert(items.deep_view() =~= raw.push(
                    SpecFmtItem::Metadata(MetadataKind::ImageOriginalFilename),
                ));
            }
        } else {
            proof {
                assert(spec_has_original(raw));
            }
        }
        Ok(FilenameFormat(items))
    }
}

/// The timestamp text a render call works from: the record's capture-date
/// field, or the empty string when the field is absent (which no date/time
/// layout accepts, so the directives degrade to empty contributions).
pub open spec fn spec_date_source(md: MetadataModel) -> Seq<char> {
    match md.date_time_original {
        Some(d) => d,
        None => Seq::empty(),
    }
}

/// What one instruction contributes to the rendered filename.
pub open spec fn spec_render_item(
    it: SpecFmtItem,
    original: Seq<char>,
    md: MetadataModel,
) -> Seq<char> {
    match it {
        SpecFmtItem::Literal(t) => t,
        SpecFmtItem::DateTime(p) => if spec_exif_datetime_valid(spec_date_source(md)) {
            spec_strftime(spec_date_source(md), p)
        } else {
            Seq::empty()
        },
        SpecFmtItem::Metadata(k) => spec_expand(k, md, original),
    }
}

/// The rendered filename stem: each instruction's contribution, in template
/// order.
pub open spec fn spec_render(
    items: Seq<SpecFmtItem>,
    original: Seq<char>,
    md: MetadataModel,
) -> Seq<char>
    decreases items.len(),
{
    if items.len() == 0 {
        Seq::empty()
    } else {
        spec_render_item(items[0], original, md) + spec_render(items.drop_first(), original, md)
    }
}

proof fn lemma_render_snoc(items: Seq<SpecFmtItem>, original: Seq<char>, md: MetadataModel)
    requires
        items.len() > 0,
    ensures
        spec_render(items, original, md) == spec_render(items.drop_last(), original, md)
            + spec_render_item(items.last(), original, md),
    decreases items.len(),
{
    if items.len() == 1 {
        assert(items.drop_first() =~= Seq::<SpecFmtItem>::empty());
        assert(items.drop_last() =~= Seq::<SpecFmtItem>::empty());
        assert(spec_render_item(items[0], original, md) + Seq::<char>::empty() =~= spec_render_item(
            items[0],
            original,
            md,
        ));
        assert(Seq::<char>::empty() + spec_render_item(items[0], original, md) =~= spec_render_item(
            items[0],
            original,
            md,
        ));
    } else {
        let rest = items.drop_first();
        lemma_render_snoc(rest, original, md);
        assert(items.drop_last().drop_first() =~= rest.drop_last());
        assert(items.drop_last()[0] == items[0]);
        assert(rest.last() == items.last());
        assert(spec_render_item(items[0], original, md) + (spec_render(
            rest.drop_last(),
            original,
            md,
        ) + spec_render_item(items.last(), original, md)) =~= (spec_render_item(
            items[0],
            original,
            md,
        ) + spec_render(rest.drop_last(), original, md)) + spec_render_item(
            items.last(),
            original,
            md,
        ));
    }
}

impl FilenameFormat {
    /// Renders the template against one image: every instruction's
    /// contribution, in order, for the given original filename stem and
    /// metadata record. Rendering is total — it accepts any template and
    /// any record, and an absent or unparsable field contributes an empty
    /// string rather than failing the call.
    pub fn render_filename(&self, original_filename: &str, md: &ImageMetadata) -> (r: String)
        ensures
            r@ == spec_render(self@, original_filename@, md@),
    {
        let date_str: &str = match &md.date_time_original {
            Some(d) => d.as_str(),
            None => "",
        };
        proof {
            reveal_strlit("");
            assert(""@ =~= Seq::<char>::empty());
            assert(date_str@ == spec_date_source(md@));
        }
        let mut date_checked = false;
        let mut date_ok = false;
        let mut out = String::new();
        let mut idx: usize = 0;
        while idx < self.0.len()
            invariant
                idx <= self.0.len(),
                date_str@ == spec_date_source(md@),
                date_checked ==> date_ok == spec_exif_datetime_valid(date_str@),
                out@ == spec_render(self@.subrange(0, idx as int), original_filename@, md@),
            decreases self.0.len() - idx,
        {
            let ghost prefix = self@.subrange(0, idx as int);
            match &self.0[idx] {
                FmtItem::Literal(t) => {
                    out.append(t.as_str());
                },
                FmtItem::Metadata(k) => {
                    let piece = k.expand_with_metadata(md, original_filename);
                    out.append(piece.as_str());
                },
                FmtItem::DateTime(p) => {
                    if !date_checked {
                        date_ok = exif_datetime_parses(date_str);
                        date_checked = true;
                    }
                    if date_ok {
                        let piece = strftime(date_str, p.as_str());
                        out.append(piece.as_str());
                    }
                },
            }
            idx = idx + 1;
            proof {
                let next = self@.subrange(0, idx as int);
                assert(next.drop_last() =~= prefix);
                assert(next.last() == self@[idx - 1]);
                lemma_render_snoc(next, original_filename@, md@);
                assert(out@ == spec_render(next, original_filename@, md@));
            }
        }
        proof {
            assert(self@.subrange(0, self.0.len() as int) =~= self@);
        }
        out
    }
}

/// Compiles a format string into the bare instruction sequence, under the
/// same contract as [`FilenameFormat::parse`].
pub fn parse_name_format(fmt: &str) -> (r: Result<Vec<FmtItem>, ParseError>)
    ensures
        spec_parse_outcome(
            fmt@,
            match r {
                Ok(items) => Ok(items.deep_view()),
                Err(e) => Err(e),
            },
        ),
{
    match FilenameFormat::parse(fmt) {
        Ok(f) => Ok(f.0),
        Err(e) => Err(e),
    }
}

/// Resolves a dotted key against the catalog, as an instruction.
pub fn expand(s: &str) -> (r: Option<FmtItem>)
    ensures
        match r {
            Some(it) => spec_lookup(s@) is Some && it@ == SpecFmtItem::Metadata(
                spec_lookup(s@)->Some_0,
            ),
            None => spec_lookup(s@) is None,
        },
{
    match lookup_key(s) {
        Some(kind) => Some(FmtItem::Metadata(kind)),
        None => None,
    }
}

/// The compiler is a function of the format string alone: one input has
/// exactly one possible compiled instruction sequence, so compiling equal
/// strings yields structurally identical templates.
pub proof fn lemma_compile_deterministic(
    fmt: Seq<char>,
    t1: Seq<SpecFmtItem>,
    t2: Seq<SpecFmtItem>,
)
    requires
        spec_compile(fmt) == Ok::<Seq<SpecFmtItem>, SpecParseFailure>(t1),
        spec_compile(fmt) == Ok::<Seq<SpecFmtItem>, SpecParseFailure>(t2),
    ensures
        t1 == t2,
{
}

/// How many instructions of a sequence reference the original filename.
pub open spec fn spec_count_original(items: Seq<SpecFmtItem>) -> nat
    decreases items.len(),
{
    if items.len() == 0 {
        0
    } else {
        spec_count_original(items.drop_last()) + if items.last() == SpecFmtItem::Metadata(
            MetadataKind::ImageOriginalFilename,
        ) {
            1nat
        } else {
            0nat
        }
    }
}

proof fn lemma_count_original_positive(items: Seq<SpecFmtItem>)
    ensures
        spec_has_original(items) <==> spec_count_original(items) >= 1,
    decreases items.len(),
{
    if items.len() > 0 {
        lemma_count_original_positive(items.drop_last());
        if items.last() == SpecFmtItem::Metadata(MetadataKind::ImageOriginalFilename) {
            assert(items[items.len() - 1] == SpecFmtItem::Metadata(
                MetadataKind::ImageOriginalFilename,
            ));
        } else if spec_has_original(items) {
            let j = choose|j: int|
                0 <= j < items.len() && items[j] == SpecFmtItem::Metadata(
                    MetadataKind::ImageOriginalFilename,
                );
            assert(items.drop_last()[j] == items[j]);
        } else if spec_has_original(items.drop_last()) {
            let j = choose|j: int|
                0 <= j < items.drop_last().len() && items.drop_last()[j]
                    == SpecFmtItem::Metadata(MetadataKind::ImageOriginalFilename);
            assert(items[j] == items.drop_last()[j]);
        }
    }
}

/// Appending the original-filename guarantee never duplicates it: a
/// sequence that already references the original filename is left as it
/// is, and one that does not gets exactly one reference.
pub proof fn lemma_append_original_count(items: Seq<SpecFmtItem>)
    ensures
        spec_count_original(spec_append_original(items)) == if spec_count_original(items) == 0 {
            1nat
        } else {
            spec_count_original(items)
        },
        spec_count_original(items) >= 1 ==> spec_append_original(items) == items,
{
    lemma_count_original_positive(items);
    if !spec_has_original(items) {
        let pushed = items.push(SpecFmtItem::Metadata(MetadataKind::ImageOriginalFilename));
        assert(pushed.drop_last() =~= items);
        assert(pushed.last() == SpecFmtItem::Metadata(MetadataKind::ImageOriginalFilename));
    }
}

/// Every successfully compiled template references the original filename
/// at least once; when the format string itself referenced it at most
/// once, the compiled template references it exactly once.
pub proof fn lemma_compiled_references_original(fmt: Seq<char>, items: Seq<SpecFmtItem>)
    requires
        spec_compile(fmt) == Ok::<Seq<SpecFmtItem>, SpecParseFailure>(items),
    ensures
        spec_count_original(items) >= 1,
        spec_scan(fmt, 0) is Ok && spec_count_original(spec_scan(fmt, 0)->Ok_0) <= 1
            ==> spec_count_original(items) == 1,
{
    let raw = spec_scan(fmt, 0)->Ok_0;
    lemma_append_original_count(raw);
    lemma_count_original_positive(raw);
    lemma_count_original_positive(items);
    if !spec_has_original(raw) {
        let pushed = raw.push(SpecFmtItem::Metadata(MetadataKind::ImageOriginalFilename));
        assert(pushed[pushed.len() - 1] == SpecFmtItem::Metadata(
            MetadataKind::ImageOriginalFilename,
        ));
    }
}

} // verus!

//! Reading the text of a commit message.

use vstd::prelude::*;
use crate::config::{CommitElementDefinition, Repository};
use crate::text::{
    decimal_of, find_line_feed, is_alphanumeric, is_alphanumeric_char, is_digit, is_digit_char,
    join_range, joined, lemma_joined_ends_with_last, lines, lines_of, next_line_feed, owned,
    parse_u64, parsed_u64, push_decimal, same_text, string_of, texts, to_chars,
};

verus! {

/// Whether `c` is one of `a` to `z`.
pub open spec fn is_lower(c: char) -> bool {
    'a' <= c <= 'z'
}

/// Index just past the run of lower-case letters that begins at `from`.
pub open spec fn lower_run_end(s: Seq<char>, from: int) -> int
    decreases s.len() - from,
{
    if 0 <= from < s.len() && is_lower(s[from]) {
        lower_run_end(s, from + 1)
    } else {
        from
    }
}

/// Index of the first `)` at or after `from`, or the length of `s`.
pub open spec fn next_closing(s: Seq<char>, from: int) -> int
    decreases s.len() - from,
{
    if from < 0 || from >= s.len() {
        s.len() as int
    } else if s[from] == ')' {
        from
    } else {
        next_closing(s, from + 1)
    }
}

/// Where the parts of a header stand in its line, as character indices.
pub struct HeaderSpans {
    /// The commit type: `[ty_start, ty_end)`.
    pub ty_start: int,
    pub ty_end: int,
    /// The scope between its parentheses, if there is one.
    pub scope: Option<(int, int)>,
    /// Whether a `!` marks a breaking change.
    pub breaking: bool,
}

/// The header that begins at index `i` of `s`, if one does.
///
/// A header is a type of one or more lower-case letters, as many as stand
/// there; then, optionally, a scope in parentheses, of one or more characters
/// other than `)`; then, optionally, `!`; then a colon and a space; then a
/// subject that runs to the end of the text and holds no line feed.
pub open spec fn header_at(s: Seq<char>, i: int) -> Option<HeaderSpans> {
    let ty_end = lower_run_end(s, i);
    if i < 0 || ty_end <= i {
        None
    } else {
        let open = ty_end < s.len() && s[ty_end] == '(';
        let close = next_closing(s, ty_end + 1);
        if open && (close >= s.len() || close == ty_end + 1) {
            None
        } else {
            let after_scope = if open {
                close + 1
            } else {
                ty_end
            };
            let breaking = after_scope < s.len() && s[after_scope] == '!';
            let colon = if breaking {
                after_scope + 1
            } else {
                after_scope
            };
            if colon + 1 < s.len() && s[colon] == ':' && s[colon + 1] == ' ' && next_line_feed(
                s,
                colon + 2,
            ) >= s.len() {
                Some(
                    HeaderSpans {
                        ty_start: i,
                        ty_end,
                        scope: if open {
                            Some((ty_end + 1, close))
                        } else {
                            None
                        },
                        breaking,
                    },
                )
            } else {
                None
            }
        }
    }
}

/// The first header that begins at or after index `from`.
pub open spec fn first_header(s: Seq<char>, from: int) -> Option<HeaderSpans>
    decreases s.len() - from,
{
    if from < 0 || from >= s.len() {
        None
    } else if header_at(s, from) is Some {
        header_at(s, from)
    } else {
        first_header(s, from + 1)
    }
}

/// The header of a line: the leftmost one in it.
pub open spec fn header_of(s: Seq<char>) -> Option<HeaderSpans> {
    first_header(s, 0)
}

/// Where the parts of a header stand, in executable form.
pub struct Spans {
    pub ty_start: usize,
    pub ty_end: usize,
    pub scope: Option<(usize, usize)>,
    pub breaking: bool,
}

impl View for Spans {
    type V = HeaderSpans;

    open spec fn view(&self) -> HeaderSpans {
        HeaderSpans {
            ty_start: self.ty_start as int,
            ty_end: self.ty_end as int,
            scope: match self.scope {
                Some((a, b)) => Some((a as int, b as int)),
                None => None,
            },
            breaking: self.breaking,
        }
    }
}

fn is_lower_case(c: char) -> (r: bool)
    ensures
        r == is_lower(c),
{
    let n: u32 = c as u32;
    97 <= n && n <= 122
}

fn find_lower_run_end(s: &Vec<char>, from: usize) -> (r: usize)
    requires
        from <= s@.len(),
    ensures
        r == lower_run_end(s@, from as int),
        from <= r <= s@.len(),
{
    let mut i: usize = from;
    while i < s.len() && is_lower_case(s[i])
        invariant
            from <= i <= s@.len(),
            lower_run_end(s@, from as int) == lower_run_end(s@, i as int),
        decreases s@.len() - i,
    {
        i += 1;
    }
    i
}

fn find_closing(s: &Vec<char>, from: usize) -> (r: usize)
    requires
        from <= s@.len(),
    ensures
        r == next_closing(s@, from as int),
        from <= r <= s@.len(),
{
    let mut i: usize = from;
    while i < s.len() && s[i] != ')'
        invariant
            from <= i <= s@.len(),
            next_closing(s@, from as int) == next_closing(s@, i as int),
        decreases s@.len() - i,
    {
        i += 1;
    }
    i
}

/// The header that begins at index `i`, if one does.
fn read_header_at(s: &Vec<char>, i: usize) -> (r: Option<Spans>)
    requires
        i < s@.len(),
    ensures
        match r {
            Some(h) => header_at(s@, i as int) == Some(h@),
            None => header_at(s@, i as int) is None,
        },
        r matches Some(h) ==> h.ty_start < h.ty_end <= s@.len() && (h.scope matches Some((a, b))
            ==> a < b <= s@.len()),
{
    let n = s.len();
    let ty_end = find_lower_run_end(s, i);
    if ty_end <= i {
        return None;
    }
    let open = ty_end < n && s[ty_end] == '(';
    let mut scope: Option<(usize, usize)> = None;
    let mut after_scope: usize = ty_end;
    if open {
        let close = find_closing(s, ty_end + 1);
        if close >= n || close == ty_end + 1 {
            return None;
        }
        scope = Some((ty_end + 1, close));
        after_scope = close + 1;
    }
    let breaking = after_scope < n && s[after_scope] == '!';
    let colon: usize = if breaking {
        after_scope + 1
    } else {
        after_scope
    };
    if colon < n && n - colon > 1 && s[colon] == ':' && s[colon + 1] == ' ' {
        let feed = find_line_feed(s, colon + 2);
        if feed >= n {
            return Some(Spans { ty_start: i, ty_end, scope, breaking });
        }
    }
    None
}

/// Where the parts of the header of a line stand.
pub fn header_spans(s: &Vec<char>) -> (r: Option<Spans>)
    ensures
        match r {
            Some(h) => header_of(s@) == Some(h@),
            None => header_of(s@) is None,
        },
        r matches Some(h) ==> h.ty_start < h.ty_end <= s@.len() && (h.scope matches Some((a, b))
            ==> a < b <= s@.len()),
{
    let mut i: usize = 0;
    while i < s.len()
        invariant
            i <= s@.len(),
            first_header(s@, 0) == first_header(s@, i as int),
        decreases s@.len() - i,
    {
        match read_header_at(s, i) {
            Some(h) => {
                return Some(h);
            },
            None => {},
        }
        i += 1;
    }
    None
}

/// The text of an optional slice.
pub open spec fn opt_slice_text(o: Option<&str>) -> Option<Seq<char>> {
    match o {
        Some(s) => Some(s@),
        None => None,
    }
}

/// The parts of a header, cut out of its line.
pub open spec fn header_parts(s: Seq<char>) -> Option<(Seq<char>, Option<Seq<char>>, bool)> {
    match header_of(s) {
        Some(h) => Some(
            (
                s.subrange(h.ty_start, h.ty_end),
                match h.scope {
                    Some((a, b)) => Some(s.subrange(a, b)),
                    None => None,
                },
                h.breaking,
            ),
        ),
        None => None,
    }
}

/// Reads the header of a commit message from its first line: the commit
/// type, the scope if there is one, and whether it marks a breaking change.
pub fn parse_header(first_line: &str) -> (r: Option<(&str, Option<&str>, bool)>)
    ensures
        match r {
            Some((ty, scope, breaking)) => header_parts(first_line@) == Some(
                (ty@, opt_slice_text(scope), breaking),
            ),
            None => header_parts(first_line@) is None,
        },
{
    let chars = to_chars(first_line);
    match header_spans(&chars) {
        Some(h) => {
            let ty = first_line.substring_char(h.ty_start, h.ty_end);
            let scope = match h.scope {
                Some((a, b)) => Some(first_line.substring_char(a, b)),
                None => None,
            };
            Some((ty, scope, h.breaking))
        },
        None => None,
    }
}

/// A place in a text: a line and a character in it, both counted from 0.
#[derive(Clone, Copy, Debug, PartialEq, Eq)]
pub struct Position {
    pub line: u32,
    pub character: u32,
}

/// A stretch of a text, from `start` up to but not including `end`.
#[derive(Clone, Copy, Debug, PartialEq, Eq)]
pub struct Range {
    pub start: Position,
    pub end: Position,
}

impl Position {
    pub fn new(line: u32, character: u32) -> (r: Self)
        ensures
            r == (Position { line, character }),
    {
        Position { line, character }
    }
}

impl Range {
    pub fn new(start: Position, end: Position) -> (r: Self)
        ensures
            r == (Range { start, end }),
    {
        Range { start, end }
    }

    /// Whether this is the same stretch as `other`.
    pub fn same(&self, other: &Range) -> (r: bool)
        ensures
            r == (*self == *other),
    {
        self.start.line == other.start.line && self.start.character == other.start.character
            && self.end.line == other.end.line && self.end.character == other.end.character
    }
}

/// An item of interest in the commit text.
#[derive(Clone, Copy, Debug, PartialEq, Eq)]
pub enum ItemKind {
    /// The commit type (e.g. `feat`, `fix`)
    Ty,
    /// The commit scope
    Scope,
    /// A reference to a ticket/issue/etc
    Ref(u64),
}

/// What stands at a place in the commit text.
#[derive(Debug)]
pub struct Item {
    pub kind: ItemKind,
    pub text: String,
    pub range: Range,
}

pub struct ItemView {
    pub kind: ItemKind,
    pub text: Seq<char>,
    pub range: Range,
}

impl View for Item {
    type V = ItemView;

    open spec fn view(&self) -> ItemView {
        ItemView { kind: self.kind, text: self.text@, range: self.range }
    }
}

/// Something to tell the author about the commit text.
#[derive(Debug)]
pub struct Diagnostic {
    range: Range,
    message: String,
}

pub struct DiagnosticView {
    pub range: Range,
    pub message: Seq<char>,
}

impl View for Diagnostic {
    type V = DiagnosticView;

    closed spec fn view(&self) -> DiagnosticView {
        DiagnosticView { range: self.range, message: self.message@ }
    }
}

/// How a diagnostic is shown: line and column of its start, counted from 1,
/// in brackets, then its message.
pub open spec fn diagnostic_text(d: DiagnosticView) -> Seq<char> {
    "["@ + decimal_of((d.range.start.line + 1) as nat) + ":"@ + decimal_of(
        (d.range.start.character + 1) as nat,
    ) + "] "@ + d.message
}

impl Diagnostic {
    pub fn new(range: Range, message: &str) -> (r: Self)
        ensures
            r@ == (DiagnosticView { range, message: message@ }),
    {
        Self { range, message: owned(message) }
    }

    /// The stretch of the text that the diagnostic is about.
    pub fn range(&self) -> (r: Range)
        ensures
            r == self@.range,
    {
        self.range
    }

    /// What the diagnostic says.
    pub fn message(&self) -> (r: &str)
        ensures
            r@ == self@.message,
    {
        self.message.as_str()
    }

    /// The diagnostic as a line of text.
    pub fn to_text(&self) -> (r: String)
        ensures
            r@ == diagnostic_text(self@),
    {
        let line: u64 = self.range.start.line as u64 + 1;
        let column: u64 = self.range.start.character as u64 + 1;
        let mut out = owned("[");
        push_decimal(&mut out, line);
        out.append(":");
        push_decimal(&mut out, column);
        out.append("] ");
        out.append(self.message.as_str());
        out
    }
}

/// The views of a sequence of diagnostics.
pub open spec fn diagnostic_views(v: Seq<Diagnostic>) -> Seq<DiagnosticView> {
    Seq::new(v.len(), |i: int| v[i]@)
}

/// A count as a 32-bit number: itself, or the largest one where it is larger.
pub open spec fn clamped(n: int) -> u32 {
    if n <= u32::MAX {
        n as u32
    } else {
        u32::MAX
    }
}

/// The stretch of the line `line` from character `a` to character `b`.
pub open spec fn span_range(line: u32, a: int, b: int) -> Range {
    Range {
        start: Position { line, character: clamped(a) },
        end: Position { line, character: clamped(b) },
    }
}

/// The lines that a range touches.
pub open spec fn spanned(lines: Seq<Seq<char>>, r: Range) -> Seq<Seq<char>> {
    lines.subrange(r.start.line as int, r.end.line + 1)
}

/// How many characters of the lines that a range touches stand before its
/// last line, line feeds counted.
pub open spec fn last_line_offset(lines: Seq<Seq<char>>, r: Range) -> int {
    joined(spanned(lines, r), "\n"@).len() - lines[r.end.line as int].len()
}

/// Whether a range lies in a text: its lines exist in their order, its end
/// lies in its last line, and its start does not lie behind its end.
pub open spec fn range_valid(lines: Seq<Seq<char>>, r: Range) -> bool {
    &&& r.start.line <= r.end.line < lines.len()
    &&& r.end.character <= lines[r.end.line as int].len()
    &&& r.start.character <= r.end.character + last_line_offset(lines, r)
}

/// The text in a range: the lines that it touches, joined by line feeds,
/// from its start in the first to its end in the last.
pub open spec fn text_in(lines: Seq<Seq<char>>, r: Range) -> Seq<char> {
    joined(spanned(lines, r), "\n"@).subrange(
        r.start.character as int,
        r.end.character + last_line_offset(lines, r),
    )
}

/// Where the type and the scope of the header stand, if the first line is a
/// header.
pub open spec fn header_ranges(lines: Seq<Seq<char>>) -> (Option<Range>, Option<Range>) {
    if lines.len() == 0 {
        (None, None)
    } else {
        match header_of(lines[0]) {
            Some(h) => (
                Some(span_range(0, h.ty_start, h.ty_end)),
                match h.scope {
                    Some((a, b)) => Some(span_range(0, a, b)),
                    None => None,
                },
            ),
            None => (None, None),
        }
    }
}

/// What is wrong with a text: a second line that is not empty.
pub open spec fn diagnostics_of(lines: Seq<Seq<char>>) -> Seq<DiagnosticView> {
    if lines.len() > 1 && lines[1].len() > 0 {
        seq![
            DiagnosticView {
                range: span_range(1, 0, lines[1].len() as int),
                message: "The second line should be empty!"@,
            },
        ]
    } else {
        Seq::<DiagnosticView>::empty()
    }
}

/// The characters that words are made of: letters, digits and `#`.
pub open spec fn is_word_char(c: char) -> bool {
    is_alphanumeric_char(c) || c == '#'
}

/// Where the word that ends at `cursor` begins.
pub open spec fn word_start(line: Seq<char>, cursor: int) -> int
    decreases cursor,
{
    if cursor <= 0 || cursor > line.len() {
        0
    } else if !is_word_char(line[cursor - 1]) {
        cursor
    } else {
        word_start(line, cursor - 1)
    }
}

/// Where the word that begins at `cursor` ends.
pub open spec fn word_end(line: Seq<char>, cursor: int) -> int
    decreases line.len() - cursor,
{
    if cursor < 0 || cursor >= line.len() {
        line.len() as int
    } else if !is_word_char(line[cursor]) {
        cursor
    } else {
        word_end(line, cursor + 1)
    }
}

/// Index of the first `#` at or after `from` that a digit follows.
pub open spec fn first_reference(text: Seq<char>, from: int) -> Option<int>
    decreases text.len() - from,
{
    if from < 0 || from + 1 >= text.len() {
        None
    } else if text[from] == '#' && is_digit_char(text[from + 1]) {
        Some(from)
    } else {
        first_reference(text, from + 1)
    }
}

/// Index just past the run of digits that begins at `from`.
pub open spec fn digit_run_end(text: Seq<char>, from: int) -> int
    decreases text.len() - from,
{
    if 0 <= from < text.len() && is_digit_char(text[from]) {
        digit_run_end(text, from + 1)
    } else {
        from
    }
}

/// The digits of the first reference to a ticket in a word: those that
/// follow the first `#` that a digit follows.
pub open spec fn referenced_digits(text: Seq<char>) -> Option<Seq<char>> {
    match first_reference(text, 0) {
        Some(i) => Some(text.subrange(i + 1, digit_run_end(text, i + 1))),
        None => None,
    }
}

/// What a word is: a reference to a ticket if it holds one, whose number
/// must fit; else the type or the scope of the header if it stands where
/// they stand; else nothing.
pub open spec fn kind_of(text: Seq<char>, range: Range, ty: Option<Range>, scope: Option<Range>) -> Option<
    ItemKind,
> {
    match referenced_digits(text) {
        Some(digits) => match parsed_u64(digits) {
            Some(id) => Some(ItemKind::Ref(id)),
            None => None,
        },
        None => if ty == Some(range) {
            Some(ItemKind::Ty)
        } else if scope == Some(range) {
            Some(ItemKind::Scope)
        } else {
            None
        },
    }
}

/// The item at a position: the word around it, if there is one and it is
/// something.
pub open spec fn item_at(
    lines: Seq<Seq<char>>,
    ty: Option<Range>,
    scope: Option<Range>,
    pos: Position,
) -> Option<ItemView> {
    if pos.line >= lines.len() || pos.character > lines[pos.line as int].len() {
        None
    } else {
        let line = lines[pos.line as int];
        let start = word_start(line, pos.character as int);
        let end = word_end(line, pos.character as int);
        let range = span_range(pos.line, start, end);
        let text = text_in(lines, range);
        if start == end {
            None
        } else {
            match kind_of(text, range, ty, scope) {
                Some(kind) => Some(ItemView { kind, text, range }),
                None => None,
            }
        }
    }
}

/// The first definition named `name`.
pub open spec fn first_named(defs: Seq<CommitElementDefinition>, name: Seq<char>, from: int) -> Option<
    CommitElementDefinition,
>
    decreases defs.len() - from,
{
    if from < 0 || from >= defs.len() {
        None
    } else if defs[from].name@ == name {
        Some(defs[from])
    } else {
        first_named(defs, name, from + 1)
    }
}

/// The definition of what stands in a range, if a range is given.
pub open spec fn definition_at(
    defs: Seq<CommitElementDefinition>,
    lines: Seq<Seq<char>>,
    range: Option<Range>,
) -> Option<CommitElementDefinition> {
    match range {
        Some(r) => first_named(defs, text_in(lines, r), 0),
        None => None,
    }
}

/// A stretch within one line lies in the text, and its text is that stretch
/// of the line.
pub proof fn lemma_span_in_line(lines: Seq<Seq<char>>, line: u32, a: int, b: int)
    requires
        line < lines.len(),
        0 <= a <= b <= lines[line as int].len(),
    ensures
        range_valid(lines, span_range(line, a, b)),
        text_in(lines, span_range(line, a, b)) == lines[line as int].subrange(
            clamped(a) as int,
            clamped(b) as int,
        ),
{
    let r = span_range(line, a, b);
    assert(spanned(lines, r) =~= seq![lines[line as int]]);
    assert(joined(spanned(lines, r), "\n"@) == lines[line as int]);
}

fn is_word(c: char) -> (r: bool)
    ensures
        r == is_word_char(c),
{
    is_alphanumeric(c) || c == '#'
}

fn to_u32(n: usize) -> (r: u32)
    ensures
        r == clamped(n as int),
{
    if n <= 0xffff_ffff {
        n as u32
    } else {
        0xffff_ffff
    }
}

fn find_word_start(line: &Vec<char>, cursor: usize) -> (r: usize)
    requires
        cursor <= line@.len(),
    ensures
        r == word_start(line@, cursor as int),
        r <= cursor,
{
    let mut i: usize = cursor;
    while i > 0 && is_word(line[i - 1])
        invariant
            i <= cursor <= line@.len(),
            word_start(line@, cursor as int) == word_start(line@, i as int),
        decreases i,
    {
        i -= 1;
    }
    i
}

fn find_word_end(line: &Vec<char>, cursor: usize) -> (r: usize)
    requires
        cursor <= line@.len(),
    ensures
        r == word_end(line@, cursor as int),
        cursor <= r <= line@.len(),
{
    let mut i: usize = cursor;
    while i < line.len() && is_word(line[i])
        invariant
            cursor <= i <= line@.len(),
            word_end(line@, cursor as int) == word_end(line@, i as int),
        decreases line@.len() - i,
    {
        i += 1;
    }
    i
}

fn find_reference(text: &Vec<char>) -> (r: Option<usize>)
    ensures
        match r {
            Some(i) => first_reference(text@, 0) == Some(i as int) && i + 1 < text@.len(),
            None => first_reference(text@, 0) is None,
        },
{
    let mut i: usize = 0;
    while i < text.len() && text.len() - i > 1
        invariant
            i <= text@.len(),
            first_reference(text@, 0) == first_reference(text@, i as int),
        decreases text@.len() - i,
    {
        if text[i] == '#' && is_digit(text[i + 1]) {
            return Some(i);
        }
        i += 1;
    }
    None
}

fn find_digit_run_end(text: &Vec<char>, from: usize) -> (r: usize)
    requires
        from <= text@.len(),
    ensures
        r == digit_run_end(text@, from as int),
        from <= r <= text@.len(),
{
    let mut i: usize = from;
    while i < text.len() && is_digit(text[i])
        invariant
            from <= i <= text@.len(),
            digit_run_end(text@, from as int) == digit_run_end(text@, i as int),
        decreases text@.len() - i,
    {
        i += 1;
    }
    i
}

fn copy_chars(text: &Vec<char>, from: usize, to: usize) -> (r: Vec<char>)
    requires
        from <= to <= text@.len(),
    ensures
        r@ == text@.subrange(from as int, to as int),
{
    let mut out: Vec<char> = Vec::new();
    let mut i: usize = from;
    while i < to
        invariant
            from <= i <= to <= text@.len(),
            out@ == text@.subrange(from as int, i as int),
        decreases to - i,
    {
        out.push(text[i]);
        i += 1;
    }
    out
}

/// The analysis of one commit message.
pub struct State {
    config: Repository,
    lines: Vec<String>,
    ty: Option<Range>,
    scope: Option<Range>,
}

impl State {
    /// The lines of the commit text.
    pub closed spec fn lines(&self) -> Seq<Seq<char>> {
        texts(self.lines@)
    }

    /// Where the commit type stands, if the text has a header.
    pub closed spec fn ty(&self) -> Option<Range> {
        self.ty
    }

    /// Where the commit scope stands, if the header has one.
    pub closed spec fn scope(&self) -> Option<Range> {
        self.scope
    }

    /// The commit types that the repository defines.
    pub closed spec fn types(&self) -> Seq<CommitElementDefinition> {
        self.config.types@
    }

    /// The commit scopes that the repository defines.
    pub closed spec fn scopes(&self) -> Seq<CommitElementDefinition> {
        self.config.scopes@
    }

    /// Type and scope stand where the header of the text has them.
    pub open spec fn well_formed(&self) -> bool {
        (self.ty(), self.scope()) == header_ranges(self.lines())
    }

    pub fn new(config: Repository) -> (r: Self)
        ensures
            r.lines() == Seq::<Seq<char>>::empty(),
            r.ty() is None,
            r.scope() is None,
            r.types() == config.types@,
            r.scopes() == config.scopes@,
            r.well_formed(),
    {
        let r = Self { config, lines: Vec::new(), ty: None, scope: None };
        assert(r.lines() =~= Seq::<Seq<char>>::empty());
        r
    }

    /// Where type and scope of the header stand in the given lines.
    fn find_header_ranges(lines: &Vec<String>) -> (r: (Option<Range>, Option<Range>))
        ensures
            r == header_ranges(texts(lines@)),
    {
        if lines.len() == 0 {
            return (None, None);
        }
        let header = to_chars(lines[0].as_str());
        match header_spans(&header) {
            Some(h) => (
                Some(Self::partial_line(0, h.ty_start, h.ty_end)),
                match h.scope {
                    Some((a, b)) => Some(Self::partial_line(0, a, b)),
                    None => None,
                },
            ),
            None => (None, None),
        }
    }

    /// Whether type and scope stand where the header of the text has them.
    pub fn is_well_formed(&self) -> (r: bool)
        ensures
            r == self.well_formed(),
    {
        let (ty, scope) = Self::find_header_ranges(&self.lines);
        let same_ty = match (&self.ty, &ty) {
            (Some(a), Some(b)) => a.same(b),
            (None, None) => true,
            _ => false,
        };
        let same_scope = match (&self.scope, &scope) {
            (Some(a), Some(b)) => a.same(b),
            (None, None) => true,
            _ => false,
        };
        same_ty && same_scope
    }

    /// Takes a new commit text in place of the one before.
    pub fn update_text(&mut self, new_text: &str)
        ensures
            final(self).lines() == lines_of(new_text@),
            final(self).well_formed(),
            final(self).types() == old(self).types(),
            final(self).scopes() == old(self).scopes(),
    {
        self.lines = lines(new_text);
        let (ty, scope) = Self::find_header_ranges(&self.lines);
        self.ty = ty;
        self.scope = scope;
    }

    /// What is wrong with the commit text.
    pub fn all_diagnostics(&self) -> (r: Vec<Diagnostic>)
        ensures
            diagnostic_views(r@) == diagnostics_of(self.lines()),
    {
        let mut diagnostics: Vec<Diagnostic> = Vec::new();
        if self.lines.len() > 1 && self.lines[1].as_str().unicode_len() > 0 {
            diagnostics.push(
                Diagnostic::new(self.full_line(1), "The second line should be empty!"),
            );
        }
        assert(diagnostic_views(diagnostics@) =~= diagnostics_of(self.lines()));
        diagnostics
    }

    /// Look at the given position in the text and return the element there.
    /// Returns `None` for out of bounds accesses and if there is nothing special there.
    pub fn lookup(&self, pos: Position) -> (r: Option<Item>)
        ensures
            match r {
                Some(item) => item_at(self.lines(), self.ty(), self.scope(), pos) == Some(item@),
                None => item_at(self.lines(), self.ty(), self.scope(), pos) is None,
            },
    {
        let cursor = pos.character as usize;
        if pos.line as usize >= self.lines.len() {
            return None;
        }
        let line = to_chars(self.lines[pos.line as usize].as_str());
        if cursor > line.len() {
            return None;
        }
        let start = find_word_start(&line, cursor);
        let end = find_word_end(&line, cursor);
        if start == end {
            return None;
        }
        let range = Self::partial_line(pos.line, start, end);
        proof {
            lemma_span_in_line(self.lines(), pos.line, start as int, end as int);
        }
        let text = self.get_text(range);
        let chars = to_chars(text.as_str());
        let kind = match find_reference(&chars) {
            Some(i) => {
                let stop = find_digit_run_end(&chars, i + 1);
                let digits = copy_chars(&chars, i + 1, stop);
                match parse_u64(&digits) {
                    Some(id) => ItemKind::Ref(id),
                    None => {
                        return None;
                    },
                }
            },
            None => {
                let is_ty = match &self.ty {
                    Some(r) => r.same(&range),
                    None => false,
                };
                let is_scope = match &self.scope {
                    Some(r) => r.same(&range),
                    None => false,
                };
                if is_ty {
                    ItemKind::Ty
                } else if is_scope {
                    ItemKind::Scope
                } else {
                    return None;
                }
            },
        };
        Some(Item { kind, text, range })
    }

    /// What the repository says about the commit type of the text.
    pub fn commit_type_info(&self) -> (r: Option<CommitElementDefinition>)
        requires
            self.well_formed(),
        ensures
            r == definition_at(self.types(), self.lines(), self.ty()),
    {
        let range = match self.ty {
            Some(r) => r,
            None => {
                return None;
            },
        };
        proof {
            lemma_header_ranges_valid(self.lines());
        }
        let name = self.get_text(range);
        Self::find_named(&self.config.types, name.as_str())
    }

    /// What the repository says about the commit scope of the text.
    pub fn commit_scope_info(&self) -> (r: Option<CommitElementDefinition>)
        requires
            self.well_formed(),
        ensures
            r == definition_at(self.scopes(), self.lines(), self.scope()),
    {
        let range = match self.scope {
            Some(r) => r,
            None => {
                return None;
            },
        };
        proof {
            lemma_header_ranges_valid(self.lines());
        }
        let name = self.get_text(range);
        Self::find_named(&self.config.scopes, name.as_str())
    }

    pub fn get_commit_types(&self) -> (r: &[CommitElementDefinition])
        ensures
            r@ == self.types(),
    {
        self.config.types.as_slice()
    }

    pub fn get_commit_scopes(&self) -> (r: &[CommitElementDefinition])
        ensures
            r@ == self.scopes(),
    {
        self.config.scopes.as_slice()
    }

    fn find_named(defs: &Vec<CommitElementDefinition>, name: &str) -> (r: Option<
        CommitElementDefinition,
    >)
        ensures
            r == first_named(defs@, name@, 0),
    {
        let mut i: usize = 0;
        while i < defs.len()
            invariant
                i <= defs@.len(),
                first_named(defs@, name@, 0) == first_named(defs@, name@, i as int),
            decreases defs@.len() - i,
        {
            if same_text(defs[i].name.as_str(), name) {
                return Some(defs[i].clone());
            }
            i += 1;
        }
        None
    }

    fn full_line(&self, idx: u32) -> (r: Range)
        requires
            idx < self.lines().len(),
        ensures
            r == span_range(idx, 0, self.lines()[idx as int].len() as int),
    {
        let len = self.lines[idx as usize].as_str().unicode_len();
        Range::new(Position::new(idx, 0), Position::new(idx, to_u32(len)))
    }

    fn partial_line(line: u32, start: usize, end: usize) -> (r: Range)
        ensures
            r == span_range(line, start as int, end as int),
    {
        Range::new(Position::new(line, to_u32(start)), Position::new(line, to_u32(end)))
    }

    /// Returns the commit text inside the given range.
    pub fn get_text(&self, range: Range) -> (r: String)
        requires
            range_valid(self.lines(), range),
        ensures
            r@ == text_in(self.lines(), range),
    {
        let first = range.start.line as usize;
        let last = range.end.line as usize;
        let count = self.lines.len();
        assert(last < count);
        let text = join_range(&self.lines, first, last + 1, "\n");
        let chars = to_chars(text.as_str());
        let last_len = self.lines[last].as_str().unicode_len();
        proof {
            lemma_joined_ends_with_last(spanned(self.lines(), range), "\n"@);
            assert(spanned(self.lines(), range).last() == self.lines()[last as int]);
        }
        let offset = chars.len() - last_len;
        string_of(&chars, range.start.character as usize, range.end.character as usize + offset)
    }
}

/// The ranges of the header lie in the text.
pub proof fn lemma_header_ranges_valid(lines: Seq<Seq<char>>)
    ensures
        header_ranges(lines).0 matches Some(r) ==> range_valid(lines, r),
        header_ranges(lines).1 matches Some(r) ==> range_valid(lines, r),
{
    if lines.len() > 0 {
        if let Some(h) = header_of(lines[0]) {
            lemma_first_header_spans(lines[0], 0);
            lemma_span_in_line(lines, 0, h.ty_start, h.ty_end);
            if let Some((a, b)) = h.scope {
                lemma_span_in_line(lines, 0, a, b);
            }
        }
    }
}

/// The parts of a header lie in its line, in their order.
pub proof fn lemma_first_header_spans(s: Seq<char>, from: int)
    requires
        0 <= from,
    ensures
        first_header(s, from) matches Some(h) ==> {
            &&& 0 <= h.ty_start < h.ty_end <= s.len()
            &&& h.scope matches Some((a, b)) ==> 0 <= a < b <= s.len()
        },
    decreases s.len() - from,
{
    if from < s.len() {
        if header_at(s, from) is Some {
            lemma_lower_run(s, from);
            lemma_closing(s, lower_run_end(s, from) + 1);
        } else {
            lemma_first_header_spans(s, from + 1);
        }
    }
}

proof fn lemma_lower_run(s: Seq<char>, from: int)
    requires
        0 <= from <= s.len(),
    ensures
        from <= lower_run_end(s, from) <= s.len(),
    decreases s.len() - from,
{
    if from < s.len() && is_lower(s[from]) {
        lemma_lower_run(s, from + 1);
    }
}

proof fn lemma_closing(s: Seq<char>, from: int)
    requires
        0 <= from,
    ensures
        from <= s.len() ==> from <= next_closing(s, from) <= s.len(),
    decreases s.len() - from,
{
    if from < s.len() && s[from] != ')' {
        lemma_closing(s, from + 1);
    }
}


} // verus!

use vstd::prelude::*;

verus! {

/// The text of each string of a list, in order.
pub open spec fn texts(v: Seq<String>) -> Seq<Seq<char>> {
    v.map_values(|s: String| s@)
}

/// The text of an optional string.
pub open spec fn opt_text(s: Option<String>) -> Option<Seq<char>> {
    match s {
        Some(v) => Some(v@),
        None => None,
    }
}

/// Whether a character has the Unicode `White_Space` property, which is what
/// `char::is_whitespace` and `str::trim` go by: tab through carriage return,
/// space, next line, no-break space, ogham space mark, the spaces from en quad
/// to hair space, line and paragraph separators, narrow no-break space, medium
/// mathematical space, and ideographic space.
pub open spec fn is_white_space(c: char) -> bool {
    let v = c as u32;
    ||| 0x09 <= v <= 0x0d
    ||| v == 0x20
    ||| v == 0x85
    ||| v == 0xa0
    ||| v == 0x1680
    ||| 0x2000 <= v <= 0x200a
    ||| v == 0x2028
    ||| v == 0x2029
    ||| v == 0x202f
    ||| v == 0x205f
    ||| v == 0x3000
}

/// A text without its leading white space.
pub open spec fn trimmed_start(s: Seq<char>) -> Seq<char>
    decreases s.len(),
{
    if s.len() > 0 && is_white_space(s[0]) {
        trimmed_start(s.drop_first())
    } else {
        s
    }
}

/// A text without its trailing white space.
pub open spec fn trimmed_end(s: Seq<char>) -> Seq<char>
    decreases s.len(),
{
    if s.len() > 0 && is_white_space(s.last()) {
        trimmed_end(s.drop_last())
    } else {
        s
    }
}

/// A text without its leading and trailing white space.
pub open spec fn trimmed(s: Seq<char>) -> Seq<char> {
    trimmed_end(trimmed_start(s))
}

proof fn lemma_trimmed_start_shape(s: Seq<char>)
    ensures
        trimmed_start(s).len() > 0 ==> !is_white_space(trimmed_start(s)[0]),
    decreases s.len(),
{
    if s.len() > 0 && is_white_space(s[0]) {
        lemma_trimmed_start_shape(s.drop_first());
    }
}

proof fn lemma_trimmed_end_shape(s: Seq<char>)
    ensures
        trimmed_end(s).len() <= s.len(),
        trimmed_end(s) =~= s.subrange(0, trimmed_end(s).len() as int),
        trimmed_end(s).len() > 0 ==> !is_white_space(trimmed_end(s).last()),
    decreases s.len(),
{
    if s.len() > 0 && is_white_space(s.last()) {
        lemma_trimmed_end_shape(s.drop_last());
    }
}

/// A trimmed text that is not empty starts and ends with a character that is
/// not white space, and it is no longer than the text it came from.
pub proof fn lemma_trimmed_has_no_outer_white_space(s: Seq<char>)
    ensures
        trimmed(s).len() > 0 ==> !is_white_space(trimmed(s)[0]) && !is_white_space(
            trimmed(s).last(),
        ),
        trimmed(s).len() <= s.len(),
{
    lemma_trimmed_start_suffix(s);
    lemma_trimmed_start_shape(s);
    lemma_trimmed_end_shape(trimmed_start(s));
}

proof fn lemma_trimmed_start_suffix(s: Seq<char>)
    ensures
        trimmed_start(s).len() <= s.len(),
        trimmed_start(s) =~= s.subrange(s.len() - trimmed_start(s).len(), s.len() as int),
    decreases s.len(),
{
    if s.len() > 0 && is_white_space(s[0]) {
        lemma_trimmed_start_suffix(s.drop_first());
    }
}

/// Calls `str::trim`, which the standard library documents as removing
/// leading and trailing characters with the Unicode `White_Space` property.
/// Claimed of it: the result is `trimmed` of the input's text.
#[verifier::external_body]
pub(crate) fn trim<'a>(s: &'a str) -> (r: &'a str)
    ensures
        r@ == trimmed(s@),
{
    s.trim()
}

/// Calls `<str as PartialEq>::eq`. Claimed of it: two string slices are equal
/// exactly when they hold the same characters.
#[verifier::external_body]
pub(crate) fn str_eq(a: &str, b: &str) -> (r: bool)
    ensures
        r == (a@ == b@),
{
    a == b
}

/// What `Path::join` makes of a base path and a path to adjoin, as text.
/// Beyond what `join_path` states of it, the result is named and not defined.
pub uninterp spec fn path_joined(base: Seq<char>, name: Seq<char>) -> Seq<char>;

/// Whether a path is absolute on Unix: it starts at the root.
pub open spec fn is_absolute_path(p: Seq<char>) -> bool {
    p.len() > 0 && p[0] == '/'
}

/// Calls `std::path::Path::join` on two UTF-8 paths, whose join is UTF-8 again,
/// and hands the joined path back as a `String`. Claimed of it, as the
/// standard library documents `Path::join` and `PathBuf::push`: an absolute
/// path to adjoin replaces the base, and a relative one extends the base,
/// after a separator where one is needed. Which of the two (separator or not)
/// the standard library picks is left unsaid: its documentation does not
/// state the rule; the result is `path_joined` of the two texts.
#[verifier::external_body]
pub(crate) fn join_path(base: &str, name: &str) -> (r: String)
    ensures
        r@ == path_joined(base@, name@),
        is_absolute_path(name@) ==> r@ == name@,
        !is_absolute_path(name@) ==> (r@ == base@ + name@ || r@ == base@ + seq!['/'] + name@),
{
    std::path::Path::new(base).join(name).to_string_lossy().into_owned()
}

} // verus!

//! The stages of the game, their wire codes, and the image keys under which
//! a rich-presence client shows them.

use vstd::prelude::*;
use vstd::utf8::is_ascii_chars;

verus! {

/// A stage, or `NoStage` while none is selected.
///
/// Each stage is carried on the wire as its code, its position in this list.
#[derive(Clone, Copy, Debug, PartialEq, Eq, Structural)]
pub enum Stage {
    NoStage,
}

/// The number of stages, `NoStage` included: the codes are `0..STAGE_COUNT`.
pub const STAGE_COUNT: u32 = 1;

/// The character that separates a stage's variant prefix from its base name.
pub const UNDERSCORE: char = '_';

impl Stage {
    /// The code of a stage: its position in the list of stages.
    pub open spec fn code_of(self) -> u32 {
        match self {
            Stage::NoStage => 0,
        }
    }

    /// The stage that a code names, if the code is one of `0..STAGE_COUNT`.
    pub open spec fn decode(code: u32) -> Option<Stage> {
        if code == 0 {
            Option::Some(Stage::NoStage)
        } else {
            Option::None
        }
    }

    /// The name under which the game's stage table lists a stage.
    pub open spec fn name_of(self) -> Seq<char> {
        match self {
            Stage::NoStage => "None"@,
        }
    }

    /// The code under which this stage is stored.
    pub fn code(self) -> (c: u32)
        ensures
            c == self.code_of(),
    {
        match self {
            Stage::NoStage => 0,
        }
    }

    /// The stage stored under `code`, or `None` for a code outside `0..STAGE_COUNT`.
    pub fn from_code(code: u32) -> (r: Option<Stage>)
        ensures
            r == Stage::decode(code),
    {
        if code == 0 {
            Option::Some(Stage::NoStage)
        } else {
            Option::None
        }
    }

    /// The name under which the game's stage table lists this stage.
    pub fn name(self) -> (s: &'static str)
        ensures
            s@ == self.name_of(),
    {
        match self {
            Stage::NoStage => "None",
        }
    }
}

/// Every stage has a code below `STAGE_COUNT`, and reading that code back
/// gives the same stage.
pub proof fn lemma_stage_code_round_trip(s: Stage)
    ensures
        s.code_of() < STAGE_COUNT,
        Stage::decode(s.code_of()) == Option::Some(s),
{
}

/// A code names a stage exactly when it is below `STAGE_COUNT`, and the
/// stage it names is stored under that same code.
pub proof fn lemma_stage_decode_inverse(code: u32)
    ensures
        Stage::decode(code) is Some <==> code < STAGE_COUNT,
        Stage::decode(code) matches Option::Some(s) ==> s.code_of() == code,
{
}

/// `name` without the underscores it starts with.
pub open spec fn trim_leading_underscores(name: Seq<char>) -> Seq<char>
    decreases name.len(),
{
    if name.len() > 0 && name[0] == UNDERSCORE {
        trim_leading_underscores(name.drop_first())
    } else {
        name
    }
}

/// Whether `s` begins with `prefix`.
pub open spec fn starts_with(s: Seq<char>, prefix: Seq<char>) -> bool {
    prefix.len() <= s.len() && s.subrange(0, prefix.len() as int) == prefix
}

/// `name` without a leading `Battle_` or, failing that, a leading `End_`.
pub open spec fn strip_variant_prefix(name: Seq<char>) -> Seq<char> {
    if starts_with(name, "Battle_"@) {
        name.skip("Battle_"@.len() as int)
    } else if starts_with(name, "End_"@) {
        name.skip("End_"@.len() as int)
    } else {
        name
    }
}

/// A character mapped to lower case where it is an ASCII capital letter.
pub open spec fn ascii_lower_char(c: char) -> char {
    if 'A' <= c <= 'Z' {
        ((c as u32) + 32) as char
    } else {
        c
    }
}

/// A string with every ASCII capital letter mapped to lower case.
pub open spec fn ascii_lowercase(s: Seq<char>) -> Seq<char> {
    s.map_values(|c: char| ascii_lower_char(c))
}

/// What `str::to_lowercase` returns for a string: its Unicode lower-case form.
pub uninterp spec fn unicode_lowercase(s: Seq<char>) -> Seq<char>;

/// The image key of a stage name, before lower-casing: the name without its
/// leading underscores and without a `Battle_` or `End_` variant prefix.
pub open spec fn image_key_base(name: Seq<char>) -> Seq<char> {
    strip_variant_prefix(trim_leading_underscores(name))
}

/// Lower-cases a string with `str::to_lowercase`.
///
/// Trusted: the result is Unicode's lower-case mapping of the input, named
/// `unicode_lowercase`; on an ASCII input that mapping sends each capital
/// letter `A`..`Z` to its small letter and keeps every other character.
#[verifier::external_body]
fn to_lowercase(s: &str) -> (r: String)
    ensures
        r@ == unicode_lowercase(s@),
        is_ascii_chars(s@) ==> r@ == ascii_lowercase(s@),
{
    s.to_lowercase()
}

/// Whether `s` begins with `prefix`, compared character by character.
fn has_prefix(s: &str, s_len: usize, prefix: &str) -> (r: bool)
    requires
        s_len == s@.len(),
    ensures
        r == starts_with(s@, prefix@),
{
    let p_len = prefix.unicode_len();
    if p_len > s_len {
        return false;
    }
    let mut i: usize = 0;
    while i < p_len
        invariant
            p_len == prefix@.len(),
            s_len == s@.len(),
            p_len <= s_len,
            i <= p_len,
            forall|j: int| 0 <= j < i ==> s@[j] == prefix@[j],
        decreases p_len - i,
    {
        if s.get_char(i) != prefix.get_char(i) {
            assert(s@.subrange(0, p_len as int)[i as int] != prefix@[i as int]);
            return false;
        }
        i = i + 1;
    }
    assert(s@.subrange(0, p_len as int) =~= prefix@);
    true
}

/// The position of the first character of `s` that is not an underscore,
/// or the length of `s` where there is none.
fn leading_underscore_count(s: &str, s_len: usize) -> (n: usize)
    requires
        s_len == s@.len(),
    ensures
        n <= s_len,
        s@.skip(n as int) == trim_leading_underscores(s@),
{
    let mut i: usize = 0;
    assert(s@.skip(0) =~= s@);
    while i < s_len && s.get_char(i) == UNDERSCORE
        invariant
            s_len == s@.len(),
            i <= s_len,
            trim_leading_underscores(s@.skip(i as int)) == trim_leading_underscores(s@),
        decreases s_len - i,
    {
        assert(s@.skip(i as int).drop_first() =~= s@.skip(i + 1));
        i = i + 1;
    }
    i
}

/// The image key of a stage name: the name without its leading underscores
/// and without a `Battle_` or `End_` variant prefix, lower-cased.
pub fn image_key_from_name(name: &str) -> (key: String)
    ensures
        key@ == unicode_lowercase(image_key_base(name@)),
        is_ascii_chars(name@) ==> key@ == ascii_lowercase(image_key_base(name@)),
{
    let len = name.unicode_len();
    let start = leading_underscore_count(name, len);
    let trimmed = name.substring_char(start, len);
    let t_len = len - start;
    proof {
        reveal_strlit("Battle_");
        reveal_strlit("End_");
    }
    let base = if has_prefix(trimmed, t_len, "Battle_") {
        trimmed.substring_char(7, t_len)
    } else if has_prefix(trimmed, t_len, "End_") {
        trimmed.substring_char(4, t_len)
    } else {
        trimmed
    };
    assert(base@ == image_key_base(name@));
    proof {
        if is_ascii_chars(name@) {
            assert forall|i: int| 0 <= i < base@.len() implies '\0' <= #[trigger] base@[i] <= '\u{7f}' by {
                assert(base@[i] == name@[i + (len - base@.len())]);
            }
        }
    }
    to_lowercase(base)
}

/// The key of the image that shows `stage`: its name without leading
/// underscores and without a `Battle_` or `End_` prefix, in lower case.
pub fn stage_to_image_key(stage: Stage) -> (key: String)
    ensures
        key@ == ascii_lowercase(image_key_base(stage.name_of())),
{
    proof {
        reveal_strlit("None");
    }
    image_key_from_name(stage.name())
}

/// Whether `prefix` marks a variant of a stage: `Battle_` or `End_`.
pub open spec fn is_variant_prefix(prefix: Seq<char>) -> bool {
    prefix == "Battle_"@ || prefix == "End_"@
}

/// Whether `name` is the name of a normal stage: it starts with neither an
/// underscore nor a variant prefix.
pub open spec fn is_normal_name(name: Seq<char>) -> bool {
    &&& !(name.len() > 0 && name[0] == UNDERSCORE)
    &&& !starts_with(name, "Battle_"@)
    &&& !starts_with(name, "End_"@)
}

/// A variant's name (`Battle_` or `End_` before a normal stage's name) has
/// the image key of the normal stage.
pub proof fn lemma_variant_name_shares_image_key(prefix: Seq<char>, name: Seq<char>)
    requires
        is_variant_prefix(prefix),
        is_normal_name(name),
    ensures
        image_key_base(prefix + name) == image_key_base(name),
        unicode_lowercase(image_key_base(prefix + name)) == unicode_lowercase(image_key_base(name)),
        ascii_lowercase(image_key_base(prefix + name)) == ascii_lowercase(image_key_base(name)),
{
    reveal_strlit("Battle_");
    reveal_strlit("End_");
    let whole = prefix + name;
    assert(whole[0] == prefix[0]);
    assert(trim_leading_underscores(whole) == whole);
    assert(trim_leading_underscores(name) == name);
    if prefix == "Battle_"@ {
        assert(whole.subrange(0, 7) =~= prefix);
        assert(whole.skip(7) =~= name);
    } else {
        if whole.len() >= 7 {
            assert(whole.subrange(0, 7)[0] == 'E');
        }
        assert(whole.subrange(0, 4) =~= prefix);
        assert(whole.skip(4) =~= name);
    }
}

/// A stage whose name is a variant prefix before another stage's normal
/// name is shown with that stage's image.
pub proof fn lemma_variant_stage_shares_image_key(variant: Stage, normal: Stage, prefix: Seq<char>)
    requires
        is_variant_prefix(prefix),
        is_normal_name(normal.name_of()),
        variant.name_of() == prefix + normal.name_of(),
    ensures
        ascii_lowercase(image_key_base(variant.name_of()))
            == ascii_lowercase(image_key_base(normal.name_of())),
{
    lemma_variant_name_shares_image_key(prefix, normal.name_of());
}

} // verus!

//! Locating the game functions that the plugin hooks: each is found by a
//! short byte pattern of its machine code in the game's text section, at a
//! fixed displacement from the pattern, with a known offset to fall back on
//! where the pattern is absent.

use vstd::prelude::*;

verus! {

/// Code just before the string-length helper whose calls carry the arena id.
pub const STRLEN_HOOK_PATTERN: [u8; 8] = [0x81, 0x0e, 0x40, 0xf9, 0xe0, 0x03, 0x16, 0xaa];

/// Code just after the call site of that helper in the lobby code.
pub const LOBBY_CALLER_PATTERN: [u8; 8] = [0x60, 0x02, 0x00, 0xb4, 0x14, 0x58, 0x40, 0xa9];

/// The first instructions of the function that closes an arena.
pub const CLOSE_ARENA_PATTERN: [u8; 24] = [
    0xff, 0x83, 0x01, 0xd1, 0xf6, 0x57, 0x03, 0xa9, 0xf4, 0x4f, 0x04, 0xa9,
    0xfd, 0x7b, 0x05, 0xa9, 0xfd, 0x43, 0x01, 0x91, 0x15, 0x44, 0x40, 0xf9,
];

/// The helper starts this many bytes after its pattern.
pub const STRLEN_HOOK_DISPLACEMENT: usize = 0x38;

/// The call site lies this many bytes before its pattern.
pub const LOBBY_CALLER_DISPLACEMENT: usize = 0xc;

/// The offsets used where a pattern is not found.
pub const DEFAULT_STRLEN_HOOK: usize = 0x1b52a0;
pub const DEFAULT_LOBBY_CALLER: usize = 0x225dc2c;
pub const DEFAULT_CLOSE_ARENA: usize = 0xd7140;

/// Whether `needle` occurs in `haystack` starting at index `i`.
pub open spec fn occurs_at(haystack: Seq<u8>, needle: Seq<u8>, i: int) -> bool {
    &&& 0 <= i
    &&& i + needle.len() <= haystack.len()
    &&& haystack.subrange(i, i + needle.len()) == needle
}

/// Whether `i` is where `needle` first occurs in `haystack`.
pub open spec fn is_first_occurrence(haystack: Seq<u8>, needle: Seq<u8>, i: int) -> bool {
    &&& occurs_at(haystack, needle, i)
    &&& forall|j: int| 0 <= j < i ==> !occurs_at(haystack, needle, j)
}

/// Where `needle` first occurs in `haystack`, if anywhere.
pub open spec fn first_occurrence(haystack: Seq<u8>, needle: Seq<u8>) -> Option<int> {
    if exists|i: int| occurs_at(haystack, needle, i) {
        Option::Some(choose|i: int| is_first_occurrence(haystack, needle, i))
    } else {
        Option::None
    }
}

/// Where the three hooked functions lie, as offsets into the text section.
#[derive(Clone, Copy, Debug, PartialEq, Eq, Structural)]
pub struct HookOffsets {
    /// The string-length helper that sees the arena id.
    pub strlen_hook: usize,
    /// The lobby call site of that helper whose calls carry the arena id.
    pub lobby_caller: usize,
    /// The function that closes an arena.
    pub close_arena: usize,
}

/// The offsets the hooks use for a text section: each found by its pattern
/// and displacement, or the fallback where its pattern does not occur.
pub open spec fn hook_offsets_for(text: Seq<u8>) -> HookOffsets {
    HookOffsets {
        strlen_hook: match first_occurrence(text, STRLEN_HOOK_PATTERN@) {
            Option::Some(i) => (i + STRLEN_HOOK_DISPLACEMENT) as usize,
            Option::None => DEFAULT_STRLEN_HOOK,
        },
        lobby_caller: match first_occurrence(text, LOBBY_CALLER_PATTERN@) {
            Option::Some(i) => (i - LOBBY_CALLER_DISPLACEMENT) as usize,
            Option::None => DEFAULT_LOBBY_CALLER,
        },
        close_arena: match first_occurrence(text, CLOSE_ARENA_PATTERN@) {
            Option::Some(i) => i as usize,
            Option::None => DEFAULT_CLOSE_ARENA,
        },
    }
}

/// A needle occurs at most at one first place.
pub proof fn lemma_first_occurrence_unique(haystack: Seq<u8>, needle: Seq<u8>, i: int, k: int)
    requires
        is_first_occurrence(haystack, needle, i),
        is_first_occurrence(haystack, needle, k),
    ensures
        i == k,
{
}

/// `first_occurrence` names the first place a needle occurs, and there is
/// none exactly when the needle occurs nowhere.
pub proof fn lemma_first_occurrence_is_first(haystack: Seq<u8>, needle: Seq<u8>, i: int)
    requires
        is_first_occurrence(haystack, needle, i),
    ensures
        first_occurrence(haystack, needle) == Option::Some(i),
{
    let k = choose|k: int| is_first_occurrence(haystack, needle, k);
    assert(is_first_occurrence(haystack, needle, k));
}

/// The string-length hook's offset depends on its own pattern alone: where
/// that pattern first occurs at `i`, the hook lies the displacement after it,
/// and where it occurs nowhere, at its fallback, whatever the other patterns do.
pub proof fn lemma_strlen_offset_follows_its_pattern(text: Seq<u8>, i: int)
    requires
        i + STRLEN_HOOK_DISPLACEMENT <= usize::MAX,
    ensures
        is_first_occurrence(text, STRLEN_HOOK_PATTERN@, i)
            ==> hook_offsets_for(text).strlen_hook == i + STRLEN_HOOK_DISPLACEMENT,
        (forall|j: int| !occurs_at(text, STRLEN_HOOK_PATTERN@, j))
            ==> hook_offsets_for(text).strlen_hook == DEFAULT_STRLEN_HOOK,
{
    if is_first_occurrence(text, STRLEN_HOOK_PATTERN@, i) {
        lemma_first_occurrence_is_first(text, STRLEN_HOOK_PATTERN@, i);
    }
}

/// The lobby call site depends on its own pattern alone: where that pattern
/// first occurs at `i`, the call site lies the displacement before it, and
/// where it occurs nowhere, at its fallback, whatever the other patterns do.
pub proof fn lemma_lobby_offset_follows_its_pattern(text: Seq<u8>, i: int)
    requires
        LOBBY_CALLER_DISPLACEMENT <= i <= usize::MAX,
    ensures
        is_first_occurrence(text, LOBBY_CALLER_PATTERN@, i)
            ==> hook_offsets_for(text).lobby_caller == i - LOBBY_CALLER_DISPLACEMENT,
        (forall|j: int| !occurs_at(text, LOBBY_CALLER_PATTERN@, j))
            ==> hook_offsets_for(text).lobby_caller == DEFAULT_LOBBY_CALLER,
{
    if is_first_occurrence(text, LOBBY_CALLER_PATTERN@, i) {
        lemma_first_occurrence_is_first(text, LOBBY_CALLER_PATTERN@, i);
    }
}

/// The arena-closing hook depends on its own pattern alone: where that
/// pattern first occurs at `i`, the hook lies at `i`, and where it occurs
/// nowhere, at its fallback, whatever the other patterns do.
pub proof fn lemma_close_arena_offset_follows_its_pattern(text: Seq<u8>, i: int)
    requires
        i <= usize::MAX,
    ensures
        is_first_occurrence(text, CLOSE_ARENA_PATTERN@, i) ==> hook_offsets_for(text).close_arena == i,
        (forall|j: int| !occurs_at(text, CLOSE_ARENA_PATTERN@, j))
            ==> hook_offsets_for(text).close_arena == DEFAULT_CLOSE_ARENA,
{
    if is_first_occurrence(text, CLOSE_ARENA_PATTERN@, i) {
        lemma_first_occurrence_is_first(text, CLOSE_ARENA_PATTERN@, i);
    }
}

/// Whether `needle` occurs in `haystack` at `start`, compared byte by byte.
fn matches_at(haystack: &[u8], needle: &[u8], start: usize) -> (r: bool)
    requires
        start + needle@.len() <= haystack@.len(),
    ensures
        r == occurs_at(haystack@, needle@, start as int),
{
    let n = needle.len();
    let hl = haystack.len();
    let mut j: usize = 0;
    while j < n
        invariant
            n == needle@.len(),
            hl == haystack@.len(),
            start + n <= haystack@.len(),
            j <= n,
            forall|k: int| 0 <= k < j ==> haystack@[start + k] == needle@[k],
        decreases n - j,
    {
        if haystack[start + j] != needle[j] {
            assert(haystack@.subrange(start as int, start + n)[j as int] != needle@[j as int]);
            return false;
        }
        j = j + 1;
    }
    assert(haystack@.subrange(start as int, start + n) =~= needle@);
    true
}

/// The index of the first window of `haystack` that equals `needle`, or
/// `None` where no window does.
pub fn find_subsequence(haystack: &[u8], needle: &[u8]) -> (r: Option<usize>)
    requires
        needle@.len() > 0,
    ensures
        match r {
            Option::Some(i) => is_first_occurrence(haystack@, needle@, i as int),
            Option::None => forall|i: int| !occurs_at(haystack@, needle@, i),
        },
{
    let h = haystack.len();
    let n = needle.len();
    if n > h {
        return Option::None;
    }
    let last = h - n;
    let mut i: usize = 0;
    while i <= last
        invariant
            h == haystack@.len(),
            n == needle@.len(),
            last + n == h,
            n > 0,
            i <= last + 1,
            forall|j: int| 0 <= j < i ==> !occurs_at(haystack@, needle@, j),
        decreases last + 1 - i,
    {
        if matches_at(haystack, needle, i) {
            return Option::Some(i);
        }
        i = i + 1;
    }
    Option::None
}

/// The first occurrence of `needle` in `haystack`, as `first_occurrence`
/// names it.
fn locate(haystack: &[u8], needle: &[u8]) -> (r: Option<usize>)
    requires
        needle@.len() > 0,
    ensures
        match r {
            Option::Some(i) => is_first_occurrence(haystack@, needle@, i as int)
                && first_occurrence(haystack@, needle@) == Option::Some(i as int),
            Option::None => first_occurrence(haystack@, needle@) == Option::<int>::None,
        },
{
    let r = find_subsequence(haystack, needle);
    proof {
        if let Option::Some(i) = r {
            lemma_first_occurrence_is_first(haystack@, needle@, i as int);
        }
    }
    r
}

/// Finds the three hooked functions in the game's text section.
///
/// The lobby call site lies before its pattern, so where that pattern first
/// occurs must leave room for the displacement.
pub fn resolve_hook_offsets(text: &[u8]) -> (offsets: HookOffsets)
    requires
        text@.len() + STRLEN_HOOK_DISPLACEMENT <= usize::MAX,
        forall|i: int|
            is_first_occurrence(text@, LOBBY_CALLER_PATTERN@, i) ==> i >= LOBBY_CALLER_DISPLACEMENT,
    ensures
        offsets == hook_offsets_for(text@),
        forall|i: int| is_first_occurrence(text@, STRLEN_HOOK_PATTERN@, i)
            ==> offsets.strlen_hook == i + STRLEN_HOOK_DISPLACEMENT,
        (forall|i: int| !occurs_at(text@, STRLEN_HOOK_PATTERN@, i))
            ==> offsets.strlen_hook == DEFAULT_STRLEN_HOOK,
        forall|i: int| is_first_occurrence(text@, LOBBY_CALLER_PATTERN@, i)
            ==> offsets.lobby_caller == i - LOBBY_CALLER_DISPLACEMENT,
        (forall|i: int| !occurs_at(text@, LOBBY_CALLER_PATTERN@, i))
            ==> offsets.lobby_caller == DEFAULT_LOBBY_CALLER,
        forall|i: int| is_first_occurrence(text@, CLOSE_ARENA_PATTERN@, i)
            ==> offsets.close_arena == i,
        (forall|i: int| !occurs_at(text@, CLOSE_ARENA_PATTERN@, i))
            ==> offsets.close_arena == DEFAULT_CLOSE_ARENA,
{
    let strlen_hook = match locate(text, &STRLEN_HOOK_PATTERN) {
        Option::Some(i) => i + STRLEN_HOOK_DISPLACEMENT,
        Option::None => DEFAULT_STRLEN_HOOK,
    };
    let lobby_caller = match locate(text, &LOBBY_CALLER_PATTERN) {
        Option::Some(i) => {
            i - LOBBY_CALLER_DISPLACEMENT
        },
        Option::None => DEFAULT_LOBBY_CALLER,
    };
    let close_arena = match locate(text, &CLOSE_ARENA_PATTERN) {
        Option::Some(i) => i,
        Option::None => DEFAULT_CLOSE_ARENA,
    };
    HookOffsets { strlen_hook, lobby_caller, close_arena }
}

} // verus!

//! Emoji reactions to chat messages: the patterns are looked for in the
//! message's lowercase form, and the rust-related patterns draw one of
//! three emoji at random.

use vstd::prelude::*;

verus! {

use vstd::string::StrSliceExecFns;

/// The emoji reactions the bot can answer with.
#[derive(Clone, Copy, PartialEq, Eq, Structural, Debug)]
pub enum VinnieEmoji {
    Jaba,
    Nivazmojna,
    Utrechka,
    Zdruste,
    Crab,
    RustHappy,
    Eggplant,
}

impl VinnieEmoji {
    /// A custom emoji's platform id, or none for a plain unicode emoji.
    pub open spec fn spec_custom_id(&self) -> Option<u64> {
        match *self {
            VinnieEmoji::Jaba => Some(637684829114204175u64),
            VinnieEmoji::Nivazmojna => Some(850123166923882558u64),
            VinnieEmoji::Utrechka => None,
            VinnieEmoji::Zdruste => Some(1082770484036374639u64),
            VinnieEmoji::Crab => None,
            VinnieEmoji::RustHappy => Some(1082770391845585016u64),
            VinnieEmoji::Eggplant => None,
        }
    }

    /// The emoji's name: a custom emoji's registered name, or the unicode
    /// character itself.
    pub open spec fn spec_name(&self) -> Seq<char> {
        match *self {
            VinnieEmoji::Jaba => "jaba"@,
            VinnieEmoji::Nivazmojna => "nivazmojna"@,
            VinnieEmoji::Utrechka => "🤓"@,
            VinnieEmoji::Zdruste => "zdruste"@,
            VinnieEmoji::Crab => "🦀"@,
            VinnieEmoji::RustHappy => "rusthappy"@,
            VinnieEmoji::Eggplant => "🍆"@,
        }
    }

    /// The platform identity of the reaction: the custom emoji id where one
    /// exists, and the emoji's name.
    pub fn id(&self) -> (r: (Option<u64>, &'static str))
        ensures
            r.0 == self.spec_custom_id(),
            r.1@ == self.spec_name(),
    {
        match self {
            VinnieEmoji::Jaba => (Some(637684829114204175), "jaba"),
            VinnieEmoji::Nivazmojna => (Some(850123166923882558), "nivazmojna"),
            VinnieEmoji::Utrechka => (None, "🤓"),
            VinnieEmoji::Zdruste => (Some(1082770484036374639), "zdruste"),
            VinnieEmoji::Crab => (None, "🦀"),
            VinnieEmoji::RustHappy => (Some(1082770391845585016), "rusthappy"),
            VinnieEmoji::Eggplant => (None, "🍆"),
        }
    }
}

/// Does `pat` stand in `hay` at position `i`?
pub open spec fn is_match_at(hay: Seq<char>, pat: Seq<char>, i: int) -> bool {
    0 <= i && i + pat.len() <= hay.len() && hay.subrange(i, i + pat.len()) == pat
}

/// Does `pat` occur anywhere in `hay`?
pub open spec fn contains_pattern(hay: Seq<char>, pat: Seq<char>) -> bool {
    exists|i: int| is_match_at(hay, pat, i)
}

/// The characters of a string slice, one by one.
pub(crate) fn chars_of(s: &str) -> (r: Vec<char>)
    ensures
        r@ == s@,
{
    let n = s.unicode_len();
    let mut r: Vec<char> = Vec::new();
    let mut i: usize = 0;
    while i < n
        invariant
            n == s@.len(),
            i <= n,
            r@ == s@.take(i as int),
        decreases n - i,
    {
        r.push(s.get_char(i));
        proof {
            assert(s@.take(i + 1) =~= s@.take(i as int).push(s@[i as int]));
        }
        i = i + 1;
    }
    proof {
        assert(s@.take(n as int) =~= s@);
    }
    r
}

/// Does `pat` stand in `hay` at position `i`?
pub(crate) fn match_at(hay: &Vec<char>, pat: &Vec<char>, i: usize) -> (r: bool)
    requires
        i + pat@.len() <= hay@.len(),
    ensures
        r == is_match_at(hay@, pat@, i as int),
{
    let hay_len = hay.len();
    let mut k: usize = 0;
    while k < pat.len()
        invariant
            hay_len == hay@.len(),
            i + pat@.len() <= hay@.len(),
            k <= pat@.len(),
            forall|q: int| 0 <= q < k ==> hay@[i + q] == pat@[q],
        decreases pat@.len() - k,
    {
        proof {
            assert(i + k < hay@.len());
        }
        if hay[i + k] != pat[k] {
            proof {
                assert(hay@.subrange(i as int, i + pat@.len())[k as int] == hay@[i + k]);
            }
            return false;
        }
        k = k + 1;
    }
    proof {
        assert(hay@.subrange(i as int, i + pat@.len()) =~= pat@);
    }
    true
}

/// Does `pat` occur anywhere in `hay`?
pub(crate) fn contains_chars(hay: &Vec<char>, pat: &Vec<char>) -> (r: bool)
    ensures
        r == contains_pattern(hay@, pat@),
{
    if pat.len() == 0 {
        proof {
            assert(hay@.subrange(0, 0) =~= pat@);
            assert(is_match_at(hay@, pat@, 0));
        }
        return true;
    }
    if pat.len() > hay.len() {
        proof {
            assert(forall|q: int| !is_match_at(hay@, pat@, q));
        }
        return false;
    }
    let hay_len = hay.len();
    let bound = hay_len - pat.len();
    let mut i: usize = 0;
    while i <= bound
        invariant
            hay_len == hay@.len(),
            1 <= pat@.len() <= hay@.len(),
            bound == hay@.len() - pat@.len(),
            i <= bound + 1,
            forall|q: int| 0 <= q < i ==> !is_match_at(hay@, pat@, q),
        decreases bound + 1 - i,
    {
        if match_at(hay, pat, i) {
            proof {
                assert(contains_pattern(hay@, pat@));
            }
            return true;
        }
        i = i + 1;
    }
    proof {
        assert forall|q: int| !is_match_at(hay@, pat@, q) by {
            if 0 <= q && q + pat@.len() <= hay@.len() {
                assert(q < i);
            }
        }
    }
    false
}

/// The lowercase form of a string, as str::to_lowercase computes it.
pub uninterp spec fn lower_of(s: Seq<char>) -> Seq<char>;

/// Relies on str::to_lowercase: the Unicode lowercase form of the string,
/// a function of the characters alone; an empty string stays empty.
#[verifier::external_body]
fn lowercase(s: &str) -> (r: String)
    ensures
        r@ == lower_of(s@),
        s@.len() == 0 ==> r@.len() == 0,
{
    s.to_lowercase()
}

/// Relies on rand's thread RNG through Rng::gen_range: an index below `n`.
/// Which index comes back depends on the process's random state, so nothing
/// more is assumed of it.
#[verifier::external_body]
fn pick_index(n: usize) -> (r: usize)
    requires
        n >= 1,
    ensures
        r < n,
{
    rand::Rng::gen_range(&mut rand::thread_rng(), 0..n)
}

/// Whether the lowercased message mentions toads.
pub open spec fn mentions_toad(m: Seq<char>) -> bool {
    contains_pattern(m, "жаб"@) || contains_pattern(m, "jab"@)
}

/// Whether the lowercased message says something is impossible.
pub open spec fn mentions_impossible(m: Seq<char>) -> bool {
    contains_pattern(m, "нивазможн"@) || contains_pattern(m, "невозможн"@) || contains_pattern(
        m,
        "nivazmojn"@,
    )
}

/// Whether the lowercased message mentions mornings.
pub open spec fn mentions_morning(m: Seq<char>) -> bool {
    contains_pattern(m, "утр"@) || contains_pattern(m, "бдо"@)
}

/// Whether the lowercased message mentions caviar or eggplants.
pub open spec fn mentions_caviar(m: Seq<char>) -> bool {
    contains_pattern(m, "икр"@) || contains_pattern(m, "баклажан"@)
}

/// Whether the lowercased message mentions rust or crabs.
pub open spec fn mentions_rust(m: Seq<char>) -> bool {
    contains_pattern(m, "rust"@) || contains_pattern(m, "раст"@) || contains_pattern(m, "краб"@)
        || contains_pattern(m, "crab"@) || contains_pattern(m, "🦀"@)
}

/// The emoji the rust-related patterns draw, by the random pick.
pub open spec fn rust_emoji(pick: int) -> VinnieEmoji {
    if pick == 0 {
        VinnieEmoji::Zdruste
    } else if pick == 1 {
        VinnieEmoji::Crab
    } else {
        VinnieEmoji::RustHappy
    }
}

/// The reactions for a message whose lowercase form is `m`, given the
/// random pick for the rust-related emoji.
pub open spec fn spec_reactions(m: Seq<char>, pick: int) -> Seq<VinnieEmoji> {
    (if mentions_toad(m) {
        seq![VinnieEmoji::Jaba]
    } else {
        Seq::empty()
    }) + (if mentions_impossible(m) {
        seq![VinnieEmoji::Nivazmojna]
    } else {
        Seq::empty()
    }) + (if mentions_morning(m) {
        seq![VinnieEmoji::Utrechka]
    } else {
        Seq::empty()
    }) + (if mentions_caviar(m) {
        seq![VinnieEmoji::Eggplant]
    } else {
        Seq::empty()
    }) + (if mentions_rust(m) {
        seq![rust_emoji(pick)]
    } else {
        Seq::empty()
    })
}

/// The exec form of the rust-emoji draw.
fn rust_emoji_for(pick: usize) -> (r: VinnieEmoji)
    ensures
        r == rust_emoji(pick as int),
{
    if pick == 0 {
        VinnieEmoji::Zdruste
    } else if pick == 1 {
        VinnieEmoji::Crab
    } else {
        VinnieEmoji::RustHappy
    }
}

/// Chooses the reactions for one chat message: every pattern group that
/// occurs in the message's lowercase form contributes its emoji, in a fixed
/// order, and the rust-related group draws one of three emoji at random.
pub fn choose_reactions(message: &str) -> (r: Vec<VinnieEmoji>)
    ensures
        exists|pick: int|
            0 <= pick < 3 && r@ == spec_reactions(lower_of(message@), pick),
{
    let lowered = lowercase(message);
    let hay = chars_of(lowered.as_str());
    let ghost m = lower_of(message@);

    let mut r: Vec<VinnieEmoji> = Vec::new();

    let toad = contains_chars(&hay, &chars_of("жаб")) || contains_chars(&hay, &chars_of("jab"));
    if toad {
        r.push(VinnieEmoji::Jaba);
    }
    let ghost s1 = if mentions_toad(m) {
        seq![VinnieEmoji::Jaba]
    } else {
        Seq::<VinnieEmoji>::empty()
    };
    proof {
        assert(r@ =~= s1);
    }

    let impossible = contains_chars(&hay, &chars_of("нивазможн")) || contains_chars(
        &hay,
        &chars_of("невозможн"),
    ) || contains_chars(&hay, &chars_of("nivazmojn"));
    if impossible {
        r.push(VinnieEmoji::Nivazmojna);
    }
    let ghost s2 = s1 + if mentions_impossible(m) {
        seq![VinnieEmoji::Nivazmojna]
    } else {
        Seq::<VinnieEmoji>::empty()
    };
    proof {
        assert(r@ =~= s2);
    }

    let morning = contains_chars(&hay, &chars_of("утр")) || contains_chars(&hay, &chars_of("бдо"));
    if morning {
        r.push(VinnieEmoji::Utrechka);
    }
    let ghost s3 = s2 + if mentions_morning(m) {
        seq![VinnieEmoji::Utrechka]
    } else {
        Seq::<VinnieEmoji>::empty()
    };
    proof {
        assert(r@ =~= s3);
    }

    let caviar = contains_chars(&hay, &chars_of("икр")) || contains_chars(
        &hay,
        &chars_of("баклажан"),
    );
    if caviar {
        r.push(VinnieEmoji::Eggplant);
    }
    let ghost s4 = s3 + if mentions_caviar(m) {
        seq![VinnieEmoji::Eggplant]
    } else {
        Seq::<VinnieEmoji>::empty()
    };
    proof {
        assert(r@ =~= s4);
    }

    let pick = pick_index(3);
    let rust = contains_chars(&hay, &chars_of("rust")) || contains_chars(&hay, &chars_of("раст"))
        || contains_chars(&hay, &chars_of("краб")) || contains_chars(&hay, &chars_of("crab"))
        || contains_chars(&hay, &chars_of("🦀"));
    if rust {
        r.push(rust_emoji_for(pick));
    }
    proof {
        assert(r@ =~= spec_reactions(m, pick as int));
    }
    r
}

} // verus!

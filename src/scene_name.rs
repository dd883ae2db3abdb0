use vstd::prelude::*;

verus! {

/// The scenes that can be built by name.
#[derive(PartialEq, Eq, Structural, Debug, Clone, Copy)]
pub enum SceneName {
    /// A large ground sphere covered with small random spheres, and three
    /// large ones: glass, diffuse and metal.
    Field,
}

/// The lowercase form of a string, as `str::to_lowercase` gives it.
pub uninterp spec fn lower_of(s: Seq<char>) -> Seq<char>;

/// Relies on str::to_lowercase: the lowercase form of `s`, which depends on
/// the characters of `s` alone.
#[verifier::external_body]
fn lowercase(s: &str) -> (r: String)
    ensures
        r@ == lower_of(s@),
{
    s.to_lowercase()
}

/// The word that names the field scene.
pub open spec fn field_word() -> Seq<char> {
    seq!['f', 'i', 'e', 'l', 'd']
}

/// The scene that an already lowercased word names, if any.
pub open spec fn scene_named(word: Seq<char>) -> Option<SceneName> {
    if word == field_word() {
        Some(SceneName::Field)
    } else {
        None
    }
}

/// Looks up the scene named by `folded`, a name already in lowercase.
pub fn scene_from_folded(folded: &str) -> (r: Option<SceneName>)
    ensures
        r == scene_named(folded@),
{
    let word: [char; 5] = ['f', 'i', 'e', 'l', 'd'];
    let n = folded.unicode_len();
    if n != 5 {
        return None;
    }
    let mut i: usize = 0;
    while i < 5
        invariant
            n == 5,
            folded@.len() == 5,
            i <= 5,
            word@ == field_word(),
            forall|k: int| 0 <= k < i ==> folded@[k] == field_word()[k],
        decreases 5 - i,
    {
        if folded.get_char(i) != word[i] {
            assert(folded@[i as int] != field_word()[i as int]);
            return None;
        }
        i = i + 1;
    }
    assert(folded@ =~= field_word());
    Some(SceneName::Field)
}

impl SceneName {
    /// Reads a scene name, ignoring case.
    pub fn parse(s: &str) -> (r: Result<SceneName, &'static str>)
        ensures
            scene_named(lower_of(s@)) matches Some(n) ==> r == Ok::<SceneName, &'static str>(n),
            scene_named(lower_of(s@)) is None ==> (r matches Err(e) && e@ == "Unknown scene."@),
    {
        let folded = lowercase(s);
        match scene_from_folded(folded.as_str()) {
            Some(n) => Ok(n),
            None => Err("Unknown scene."),
        }
    }
}

impl std::str::FromStr for SceneName {
    type Err = &'static str;

    fn from_str(s: &str) -> Result<SceneName, &'static str> {
        SceneName::parse(s)
    }
}

} // verus!

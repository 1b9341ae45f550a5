use vstd::prelude::*;

verus! {

/// The pipeline stage that a profile token selects.
#[derive(Clone, Copy, Debug, PartialEq, Eq, Structural)]
pub enum Stage {
    Pixel,
    Vertex,
    Geometry,
    Hull,
    Domain,
    Compute,
    Library,
    Mesh,
    Amplification,
}

/// The stage prefix of a token, as in `ps` of `ps_6_0`.
pub open spec fn stage_prefix(st: Stage) -> Seq<char> {
    match st {
        Stage::Pixel => "ps"@,
        Stage::Vertex => "vs"@,
        Stage::Geometry => "gs"@,
        Stage::Hull => "hs"@,
        Stage::Domain => "ds"@,
        Stage::Compute => "cs"@,
        Stage::Library => "lib"@,
        Stage::Mesh => "ms"@,
        Stage::Amplification => "as"@,
    }
}

/// The text of a minor shader-model version between 0 and 7.
pub open spec fn minor_text(m: int) -> Seq<char> {
    if m == 0 {
        "0"@
    } else if m == 1 {
        "1"@
    } else if m == 2 {
        "2"@
    } else if m == 3 {
        "3"@
    } else if m == 4 {
        "4"@
    } else if m == 5 {
        "5"@
    } else if m == 6 {
        "6"@
    } else {
        "7"@
    }
}

/// Which shader-model 6 minor versions each stage is offered in.
pub open spec fn supported(st: Stage, m: int) -> bool {
    match st {
        Stage::Library => 1 <= m <= 7,
        Stage::Mesh | Stage::Amplification => 5 <= m <= 7,
        _ => 0 <= m <= 7,
    }
}

/// The token that names stage `st` at shader model 6.`m`.
pub open spec fn profile_token(st: Stage, m: int) -> Seq<char> {
    stage_prefix(st) + "_6_"@ + minor_text(m)
}

/// The entry-point name that the compiler is told to use for a stage, if any.
pub open spec fn entry_name(st: Stage) -> Option<Seq<char>> {
    match st {
        Stage::Pixel => Some("fragment"@),
        Stage::Vertex => Some("vertex"@),
        _ => None,
    }
}

spec fn digit_value(c: char) -> Option<int> {
    if c == '0' {
        Some(0)
    } else if c == '1' {
        Some(1)
    } else if c == '2' {
        Some(2)
    } else if c == '3' {
        Some(3)
    } else if c == '4' {
        Some(4)
    } else if c == '5' {
        Some(5)
    } else if c == '6' {
        Some(6)
    } else if c == '7' {
        Some(7)
    } else {
        None
    }
}

/// The stage named by a two-letter prefix.
spec fn stage_of_pair(a: char, b: char) -> Option<Stage> {
    if b != 's' {
        None
    } else if a == 'p' {
        Some(Stage::Pixel)
    } else if a == 'v' {
        Some(Stage::Vertex)
    } else if a == 'g' {
        Some(Stage::Geometry)
    } else if a == 'h' {
        Some(Stage::Hull)
    } else if a == 'd' {
        Some(Stage::Domain)
    } else if a == 'c' {
        Some(Stage::Compute)
    } else if a == 'm' {
        Some(Stage::Mesh)
    } else if a == 'a' {
        Some(Stage::Amplification)
    } else {
        None
    }
}

/// The stage named by the prefix of `s`, which is `s` up to `k`.
spec fn stage_of_prefix(s: Seq<char>, k: int) -> Option<Stage> {
    if k == 2 {
        stage_of_pair(s[0], s[1])
    } else if k == 3 && s[0] == 'l' && s[1] == 'i' && s[2] == 'b' {
        Some(Stage::Library)
    } else {
        None
    }
}

/// What a token reads as: its stage and minor version, or nothing when the
/// token is not one of the accepted profiles.
spec fn decode(s: Seq<char>) -> Option<(Stage, int)> {
    let k = s.len() - 4;
    if s.len() < 6 || s.len() > 7 {
        None
    } else if !(s[k] == '_' && s[k + 1] == '6' && s[k + 2] == '_') {
        None
    } else {
        match (stage_of_prefix(s, k), digit_value(s[k + 3])) {
            (Some(st), Some(m)) => if supported(st, m) {
                Some((st, m))
            } else {
                None
            },
            _ => None,
        }
    }
}

/// A profile token that was accepted: a stage and a shader-model 6 minor
/// version.
#[derive(Clone, Copy, Debug, PartialEq, Eq, Structural)]
pub struct Profile {
    pub stage: Stage,
    pub minor: u8,
}

/// A token outside the accepted set.
#[derive(Clone, Debug, PartialEq, Eq)]
pub struct InvalidProfile {
    pub token: String,
}

impl Stage {
    /// The entry-point name that the compiler is told to use.
    pub fn entry_point(self) -> (r: Option<&'static str>)
        ensures
            match r {
                Some(n) => entry_name(self) == Some(n@),
                None => entry_name(self) is None,
            },
    {
        match self {
            Stage::Pixel => Some("fragment"),
            Stage::Vertex => Some("vertex"),
            _ => None,
        }
    }

    /// The stage prefix of a token.
    pub fn prefix(self) -> (r: &'static str)
        ensures
            r@ == stage_prefix(self),
    {
        match self {
            Stage::Pixel => "ps",
            Stage::Vertex => "vs",
            Stage::Geometry => "gs",
            Stage::Hull => "hs",
            Stage::Domain => "ds",
            Stage::Compute => "cs",
            Stage::Library => "lib",
            Stage::Mesh => "ms",
            Stage::Amplification => "as",
        }
    }
}

impl Profile {
    pub open spec fn is_valid(&self) -> bool {
        supported(self.stage, self.minor as int)
    }

    /// The entry-point name for this profile's stage.
    pub fn entry_point(&self) -> (r: Option<&'static str>)
        ensures
            match r {
                Some(n) => entry_name(self.stage) == Some(n@),
                None => entry_name(self.stage) is None,
            },
    {
        self.stage.entry_point()
    }

    /// The token that names this profile, as the compiler takes it.
    pub fn token(&self) -> (r: String)
        requires
            self.is_valid(),
        ensures
            r@ == profile_token(self.stage, self.minor as int),
    {
        let mut t = String::from_str(self.stage.prefix());
        t.append("_6_");
        let d = match self.minor {
            0 => "0",
            1 => "1",
            2 => "2",
            3 => "3",
            4 => "4",
            5 => "5",
            6 => "6",
            _ => "7",
        };
        t.append(d);
        t
    }
}

fn digit_of(c: char) -> (r: Option<u8>)
    ensures
        match r {
            Some(m) => digit_value(c) == Some(m as int),
            None => digit_value(c) is None,
        },
{
    if c == '0' {
        Some(0)
    } else if c == '1' {
        Some(1)
    } else if c == '2' {
        Some(2)
    } else if c == '3' {
        Some(3)
    } else if c == '4' {
        Some(4)
    } else if c == '5' {
        Some(5)
    } else if c == '6' {
        Some(6)
    } else if c == '7' {
        Some(7)
    } else {
        None
    }
}

fn stage_of_chars(a: char, b: char) -> (r: Option<Stage>)
    ensures
        r == stage_of_pair(a, b),
{
    if b != 's' {
        None
    } else if a == 'p' {
        Some(Stage::Pixel)
    } else if a == 'v' {
        Some(Stage::Vertex)
    } else if a == 'g' {
        Some(Stage::Geometry)
    } else if a == 'h' {
        Some(Stage::Hull)
    } else if a == 'd' {
        Some(Stage::Domain)
    } else if a == 'c' {
        Some(Stage::Compute)
    } else if a == 'm' {
        Some(Stage::Mesh)
    } else if a == 'a' {
        Some(Stage::Amplification)
    } else {
        None
    }
}

fn is_supported(st: Stage, m: u8) -> (r: bool)
    ensures
        r == supported(st, m as int),
{
    match st {
        Stage::Library => 1 <= m && m <= 7,
        Stage::Mesh | Stage::Amplification => 5 <= m && m <= 7,
        _ => m <= 7,
    }
}

/// Checks a profile token against the accepted set and reads its stage and
/// minor version.
pub fn validate(token: &str) -> (r: Result<Profile, InvalidProfile>)
    ensures
        match r {
            Ok(p) => p.is_valid() && token@ == profile_token(p.stage, p.minor as int),
            Err(e) => e.token@ == token@ && forall|st: Stage, m: int|
                supported(st, m) ==> token@ != #[trigger] profile_token(st, m),
        },
{
    let r = read_profile(token);
    proof {
        match r {
            Ok(p) => lemma_decode_sound(token@, p.stage, p.minor as int),
            Err(_) => {
                assert forall|st: Stage, m: int| supported(st, m) implies token@
                    != #[trigger] profile_token(st, m) by {
                    lemma_decode_token(st, m);
                }
            },
        }
    }
    r
}

fn read_profile(token: &str) -> (r: Result<Profile, InvalidProfile>)
    ensures
        match r {
            Ok(p) => decode(token@) == Some((p.stage, p.minor as int)) && p.is_valid(),
            Err(e) => decode(token@) is None && e.token@ == token@,
        },
{
    let n = token.unicode_len();
    let invalid = InvalidProfile { token: String::from_str(token) };
    if n < 6 || n > 7 {
        return Err(invalid);
    }
    let k = n - 4;
    if token.get_char(k) != '_' || token.get_char(k + 1) != '6' || token.get_char(k + 2) != '_' {
        return Err(invalid);
    }
    let stage = if k == 2 {
        stage_of_chars(token.get_char(0), token.get_char(1))
    } else if token.get_char(0) == 'l' && token.get_char(1) == 'i' && token.get_char(2) == 'b' {
        Some(Stage::Library)
    } else {
        None
    };
    let minor = digit_of(token.get_char(k + 3));
    match (stage, minor) {
        (Some(st), Some(m)) => {
            if is_supported(st, m) {
                Ok(Profile { stage: st, minor: m })
            } else {
                Err(invalid)
            }
        },
        _ => Err(invalid),
    }
}


proof fn lemma_literals()
    ensures
        "ps"@ =~= seq!['p', 's'],
        "vs"@ =~= seq!['v', 's'],
        "gs"@ =~= seq!['g', 's'],
        "hs"@ =~= seq!['h', 's'],
        "ds"@ =~= seq!['d', 's'],
        "cs"@ =~= seq!['c', 's'],
        "lib"@ =~= seq!['l', 'i', 'b'],
        "ms"@ =~= seq!['m', 's'],
        "as"@ =~= seq!['a', 's'],
        "_6_"@ =~= seq!['_', '6', '_'],
        "0"@ =~= seq!['0'],
        "1"@ =~= seq!['1'],
        "2"@ =~= seq!['2'],
        "3"@ =~= seq!['3'],
        "4"@ =~= seq!['4'],
        "5"@ =~= seq!['5'],
        "6"@ =~= seq!['6'],
        "7"@ =~= seq!['7'],
{
    reveal_strlit("ps");
    reveal_strlit("vs");
    reveal_strlit("gs");
    reveal_strlit("hs");
    reveal_strlit("ds");
    reveal_strlit("cs");
    reveal_strlit("lib");
    reveal_strlit("ms");
    reveal_strlit("as");
    reveal_strlit("_6_");
    reveal_strlit("0");
    reveal_strlit("1");
    reveal_strlit("2");
    reveal_strlit("3");
    reveal_strlit("4");
    reveal_strlit("5");
    reveal_strlit("6");
    reveal_strlit("7");
}

proof fn lemma_decode_token(st: Stage, m: int)
    requires
        supported(st, m),
    ensures
        decode(profile_token(st, m)) == Some((st, m)),
{
    lemma_literals();
    let t = profile_token(st, m);
    let k = stage_prefix(st).len() as int;
    assert(t.len() == k + 4);
    assert(t[k] == '_' && t[k + 1] == '6' && t[k + 2] == '_');
    assert(digit_value(t[k + 3]) == Some(m));
    assert(stage_of_prefix(t, k) == Some(st));
}

proof fn lemma_decode_sound(s: Seq<char>, st: Stage, m: int)
    requires
        decode(s) == Some((st, m)),
    ensures
        supported(st, m),
        s == profile_token(st, m),
{
    lemma_literals();
    let k = s.len() - 4;
    assert(k == stage_prefix(st).len());
    assert(s =~= profile_token(st, m));
}

/// Each accepted token names one stage and version only, so the profile that
/// `validate` returns for it is the one it names; and the entry-point name is
/// `fragment` for pixel shaders, `vertex` for vertex shaders and none for the
/// other stages.
pub proof fn lemma_profile_token_unique(st: Stage, m: int, st2: Stage, m2: int)
    requires
        supported(st, m),
        supported(st2, m2),
        profile_token(st, m) == profile_token(st2, m2),
    ensures
        st == st2,
        m == m2,
        entry_name(st) == match st {
            Stage::Pixel => Some("fragment"@),
            Stage::Vertex => Some("vertex"@),
            _ => None::<Seq<char>>,
        },
{
    lemma_decode_token(st, m);
    lemma_decode_token(st2, m2);
}

} // verus!

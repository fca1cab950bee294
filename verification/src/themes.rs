//! The theme token vocabulary: decoding single tokens, encoding a theme
//! back to its token, and parsing a space-delimited token list as it
//! appears in the external dataset.

use vstd::prelude::*;

use crate::types::Theme;

verus! {

/// Character-by-character string equality, so that token comparison does
/// not depend on any unspecified library operation.
fn str_eq(a: &str, b: &str) -> (r: bool)
    ensures
        r == (a@ == b@),
{
    let a_len = a.unicode_len();
    let b_len = b.unicode_len();
    if a_len != b_len {
        return false;
    }
    let mut i: usize = 0;
    while i < a_len
        invariant
            i <= a_len,
            a_len == a@.len(),
            b_len == b@.len(),
            a_len == b_len,
            forall|k: int| 0 <= k < i ==> a@[k] == b@[k],
        decreases a_len - i,
    {
        if a.get_char(i) != b.get_char(i) {
            return false;
        }
        i += 1;
    }
    proof {
        assert(a@ =~= b@);
    }
    true
}

/// The token that names each theme in the external dataset.
pub open spec fn theme_token(t: Theme) -> Seq<char> {
    match t {
        Theme::AdvancedPawn => "advancedPawn"@,
        Theme::Advantage => "advantage"@,
        Theme::AnastasiaMate => "anastasiaMate"@,
        Theme::ArabianMate => "arabianMate"@,
        Theme::AttackingF2F7 => "attackingF2F7"@,
        Theme::Attraction => "attraction"@,
        Theme::BackRankMate => "backRankMate"@,
        Theme::BishopEndgame => "bishopEndgame"@,
        Theme::BodenMate => "bodenMate"@,
        Theme::CapturingDefender => "capturingDefender"@,
        Theme::Castling => "castling"@,
        Theme::Clearance => "clearance"@,
        Theme::Crushing => "crushing"@,
        Theme::DefensiveMove => "defensiveMove"@,
        Theme::Deflection => "deflection"@,
        Theme::DiscoveredAttack => "discoveredAttack"@,
        Theme::DoubleBishopMate => "doubleBishopMate"@,
        Theme::DoubleCheck => "doubleCheck"@,
        Theme::DovetailMate => "dovetailMate"@,
        Theme::EnPassant => "enPassant"@,
        Theme::Endgame => "endgame"@,
        Theme::Equality => "equality"@,
        Theme::ExposedKing => "exposedKing"@,
        Theme::Fork => "fork"@,
        Theme::HangingPiece => "hangingPiece"@,
        Theme::HookMate => "hookMate"@,
        Theme::Interference => "interference"@,
        Theme::Intermezzo => "intermezzo"@,
        Theme::KingsideAttack => "kingsideAttack"@,
        Theme::KnightEndgame => "knightEndgame"@,
        Theme::Long => "long"@,
        Theme::Master => "master"@,
        Theme::MasterVsMaster => "masterVsMaster"@,
        Theme::Mate => "mate"@,
        Theme::MateIn1 => "mateIn1"@,
        Theme::MateIn2 => "mateIn2"@,
        Theme::MateIn3 => "mateIn3"@,
        Theme::MateIn4 => "mateIn4"@,
        Theme::MateIn5 => "mateIn5"@,
        Theme::Middlegame => "middlegame"@,
        Theme::OneMove => "oneMove"@,
        Theme::Opening => "opening"@,
        Theme::PawnEndgame => "pawnEndgame"@,
        Theme::Pin => "pin"@,
        Theme::Promotion => "promotion"@,
        Theme::QueenEndgame => "queenEndgame"@,
        Theme::QueenRookEndgame => "queenRookEndgame"@,
        Theme::QueensideAttack => "queensideAttack"@,
        Theme::QuietMove => "quietMove"@,
        Theme::RookEndgame => "rookEndgame"@,
        Theme::Sacrifice => "sacrifice"@,
        Theme::Short => "short"@,
        Theme::Skewer => "skewer"@,
        Theme::SmotheredMate => "smotheredMate"@,
        Theme::SuperGM => "superGM"@,
        Theme::TrappedPiece => "trappedPiece"@,
        Theme::UnderPromotion => "underPromotion"@,
        Theme::VeryLong => "veryLong"@,
        Theme::XRayAttack => "xRayAttack"@,
        Theme::Zugzwang => "zugzwang"@,
    }
}

/// The theme a token decodes to, or nothing for an unknown token.
pub open spec fn theme_of_token(s: Seq<char>) -> Option<Theme> {
    if s == "advancedPawn"@ {
        Some(Theme::AdvancedPawn)
    } else if s == "advantage"@ {
        Some(Theme::Advantage)
    } else if s == "anastasiaMate"@ {
        Some(Theme::AnastasiaMate)
    } else if s == "arabianMate"@ {
        Some(Theme::ArabianMate)
    } else if s == "attackingF2F7"@ {
        Some(Theme::AttackingF2F7)
    } else if s == "attraction"@ {
        Some(Theme::Attraction)
    } else if s == "backRankMate"@ {
        Some(Theme::BackRankMate)
    } else if s == "bishopEndgame"@ {
        Some(Theme::BishopEndgame)
    } else if s == "bodenMate"@ {
        Some(Theme::BodenMate)
    } else if s == "capturingDefender"@ {
        Some(Theme::CapturingDefender)
    } else if s == "castling"@ {
        Some(Theme::Castling)
    } else if s == "clearance"@ {
        Some(Theme::Clearance)
    } else if s == "crushing"@ {
        Some(Theme::Crushing)
    } else if s == "defensiveMove"@ {
        Some(Theme::DefensiveMove)
    } else if s == "deflection"@ {
        Some(Theme::Deflection)
    } else if s == "discoveredAttack"@ {
        Some(Theme::DiscoveredAttack)
    } else if s == "doubleBishopMate"@ {
        Some(Theme::DoubleBishopMate)
    } else if s == "doubleCheck"@ {
        Some(Theme::DoubleCheck)
    } else if s == "dovetailMate"@ {
        Some(Theme::DovetailMate)
    } else if s == "enPassant"@ {
        Some(Theme::EnPassant)
    } else if s == "endgame"@ {
        Some(Theme::Endgame)
    } else if s == "equality"@ {
        Some(Theme::Equality)
    } else if s == "exposedKing"@ {
        Some(Theme::ExposedKing)
    } else if s == "fork"@ {
        Some(Theme::Fork)
    } else if s == "hangingPiece"@ {
        Some(Theme::HangingPiece)
    } else if s == "hookMate"@ {
        Some(Theme::HookMate)
    } else if s == "interference"@ {
        Some(Theme::Interference)
    } else if s == "intermezzo"@ {
        Some(Theme::Intermezzo)
    } else if s == "kingsideAttack"@ {
        Some(Theme::KingsideAttack)
    } else if s == "knightEndgame"@ {
        Some(Theme::KnightEndgame)
    } else if s == "long"@ {
        Some(Theme::Long)
    } else if s == "master"@ {
        Some(Theme::Master)
    } else if s == "masterVsMaster"@ {
        Some(Theme::MasterVsMaster)
    } else if s == "mate"@ {
        Some(Theme::Mate)
    } else if s == "mateIn1"@ {
        Some(Theme::MateIn1)
    } else if s == "mateIn2"@ {
        Some(Theme::MateIn2)
    } else if s == "mateIn3"@ {
        Some(Theme::MateIn3)
    } else if s == "mateIn4"@ {
        Some(Theme::MateIn4)
    } else if s == "mateIn5"@ {
        Some(Theme::MateIn5)
    } else if s == "middlegame"@ {
        Some(Theme::Middlegame)
    } else if s == "oneMove"@ {
        Some(Theme::OneMove)
    } else if s == "opening"@ {
        Some(Theme::Opening)
    } else if s == "pawnEndgame"@ {
        Some(Theme::PawnEndgame)
    } else if s == "pin"@ {
        Some(Theme::Pin)
    } else if s == "promotion"@ {
        Some(Theme::Promotion)
    } else if s == "queenEndgame"@ {
        Some(Theme::QueenEndgame)
    } else if s == "queenRookEndgame"@ {
        Some(Theme::QueenRookEndgame)
    } else if s == "queensideAttack"@ {
        Some(Theme::QueensideAttack)
    } else if s == "quietMove"@ {
        Some(Theme::QuietMove)
    } else if s == "rookEndgame"@ {
        Some(Theme::RookEndgame)
    } else if s == "sacrifice"@ {
        Some(Theme::Sacrifice)
    } else if s == "short"@ {
        Some(Theme::Short)
    } else if s == "skewer"@ {
        Some(Theme::Skewer)
    } else if s == "smotheredMate"@ {
        Some(Theme::SmotheredMate)
    } else if s == "superGM"@ {
        Some(Theme::SuperGM)
    } else if s == "trappedPiece"@ {
        Some(Theme::TrappedPiece)
    } else if s == "underPromotion"@ {
        Some(Theme::UnderPromotion)
    } else if s == "veryLong"@ {
        Some(Theme::VeryLong)
    } else if s == "xRayAttack"@ {
        Some(Theme::XRayAttack)
    } else if s == "zugzwang"@ {
        Some(Theme::Zugzwang)
    } else {
        None
    }
}

impl Theme {
    /// Decode one theme token against the fixed vocabulary.
    pub fn from_token(s: &str) -> (r: Option<Theme>)
        ensures
            r == theme_of_token(s@),
    {
        if str_eq(s, "advancedPawn") {
            Some(Theme::AdvancedPawn)
        } else if str_eq(s, "advantage") {
            Some(Theme::Advantage)
        } else if str_eq(s, "anastasiaMate") {
            Some(Theme::AnastasiaMate)
        } else if str_eq(s, "arabianMate") {
            Some(Theme::ArabianMate)
        } else if str_eq(s, "attackingF2F7") {
            Some(Theme::AttackingF2F7)
        } else if str_eq(s, "attraction") {
            Some(Theme::Attraction)
        } else if str_eq(s, "backRankMate") {
            Some(Theme::BackRankMate)
        } else if str_eq(s, "bishopEndgame") {
            Some(Theme::BishopEndgame)
        } else if str_eq(s, "bodenMate") {
            Some(Theme::BodenMate)
        } else if str_eq(s, "capturingDefender") {
            Some(Theme::CapturingDefender)
        } else if str_eq(s, "castling") {
            Some(Theme::Castling)
        } else if str_eq(s, "clearance") {
            Some(Theme::Clearance)
        } else if str_eq(s, "crushing") {
            Some(Theme::Crushing)
        } else if str_eq(s, "defensiveMove") {
            Some(Theme::DefensiveMove)
        } else if str_eq(s, "deflection") {
            Some(Theme::Deflection)
        } else if str_eq(s, "discoveredAttack") {
            Some(Theme::DiscoveredAttack)
        } else if str_eq(s, "doubleBishopMate") {
            Some(Theme::DoubleBishopMate)
        } else if str_eq(s, "doubleCheck") {
            Some(Theme::DoubleCheck)
        } else if str_eq(s, "dovetailMate") {
            Some(Theme::DovetailMate)
        } else if str_eq(s, "enPassant") {
            Some(Theme::EnPassant)
        } else if str_eq(s, "endgame") {
            Some(Theme::Endgame)
        } else if str_eq(s, "equality") {
            Some(Theme::Equality)
        } else if str_eq(s, "exposedKing") {
            Some(Theme::ExposedKing)
        } else if str_eq(s, "fork") {
            Some(Theme::Fork)
        } else if str_eq(s, "hangingPiece") {
            Some(Theme::HangingPiece)
        } else if str_eq(s, "hookMate") {
            Some(Theme::HookMate)
        } else if str_eq(s, "interference") {
            Some(Theme::Interference)
        } else if str_eq(s, "intermezzo") {
            Some(Theme::Intermezzo)
        } else if str_eq(s, "kingsideAttack") {
            Some(Theme::KingsideAttack)
        } else if str_eq(s, "knightEndgame") {
            Some(Theme::KnightEndgame)
        } else if str_eq(s, "long") {
            Some(Theme::Long)
        } else if str_eq(s, "master") {
            Some(Theme::Master)
        } else if str_eq(s, "masterVsMaster") {
            Some(Theme::MasterVsMaster)
        } else if str_eq(s, "mate") {
            Some(Theme::Mate)
        } else if str_eq(s, "mateIn1") {
            Some(Theme::MateIn1)
        } else if str_eq(s, "mateIn2") {
            Some(Theme::MateIn2)
        } else if str_eq(s, "mateIn3") {
            Some(Theme::MateIn3)
        } else if str_eq(s, "mateIn4") {
            Some(Theme::MateIn4)
        } else if str_eq(s, "mateIn5") {
            Some(Theme::MateIn5)
        } else if str_eq(s, "middlegame") {
            Some(Theme::Middlegame)
        } else if str_eq(s, "oneMove") {
            Some(Theme::OneMove)
        } else if str_eq(s, "opening") {
            Some(Theme::Opening)
        } else if str_eq(s, "pawnEndgame") {
            Some(Theme::PawnEndgame)
        } else if str_eq(s, "pin") {
            Some(Theme::Pin)
        } else if str_eq(s, "promotion") {
            Some(Theme::Promotion)
        } else if str_eq(s, "queenEndgame") {
            Some(Theme::QueenEndgame)
        } else if str_eq(s, "queenRookEndgame") {
            Some(Theme::QueenRookEndgame)
        } else if str_eq(s, "queensideAttack") {
            Some(Theme::QueensideAttack)
        } else if str_eq(s, "quietMove") {
            Some(Theme::QuietMove)
        } else if str_eq(s, "rookEndgame") {
            Some(Theme::RookEndgame)
        } else if str_eq(s, "sacrifice") {
            Some(Theme::Sacrifice)
        } else if str_eq(s, "short") {
            Some(Theme::Short)
        } else if str_eq(s, "skewer") {
            Some(Theme::Skewer)
        } else if str_eq(s, "smotheredMate") {
            Some(Theme::SmotheredMate)
        } else if str_eq(s, "superGM") {
            Some(Theme::SuperGM)
        } else if str_eq(s, "trappedPiece") {
            Some(Theme::TrappedPiece)
        } else if str_eq(s, "underPromotion") {
            Some(Theme::UnderPromotion)
        } else if str_eq(s, "veryLong") {
            Some(Theme::VeryLong)
        } else if str_eq(s, "xRayAttack") {
            Some(Theme::XRayAttack)
        } else if str_eq(s, "zugzwang") {
            Some(Theme::Zugzwang)
        } else {
            None
        }
    }

    /// The token that names this theme.
    pub fn token(&self) -> (r: String)
        ensures
            r@ == theme_token(*self),
    {
        match self {
            Theme::AdvancedPawn => "advancedPawn".to_owned(),
            Theme::Advantage => "advantage".to_owned(),
            Theme::AnastasiaMate => "anastasiaMate".to_owned(),
            Theme::ArabianMate => "arabianMate".to_owned(),
            Theme::AttackingF2F7 => "attackingF2F7".to_owned(),
            Theme::Attraction => "attraction".to_owned(),
            Theme::BackRankMate => "backRankMate".to_owned(),
            Theme::BishopEndgame => "bishopEndgame".to_owned(),
            Theme::BodenMate => "bodenMate".to_owned(),
            Theme::CapturingDefender => "capturingDefender".to_owned(),
            Theme::Castling => "castling".to_owned(),
            Theme::Clearance => "clearance".to_owned(),
            Theme::Crushing => "crushing".to_owned(),
            Theme::DefensiveMove => "defensiveMove".to_owned(),
            Theme::Deflection => "deflection".to_owned(),
            Theme::DiscoveredAttack => "discoveredAttack".to_owned(),
            Theme::DoubleBishopMate => "doubleBishopMate".to_owned(),
            Theme::DoubleCheck => "doubleCheck".to_owned(),
            Theme::DovetailMate => "dovetailMate".to_owned(),
            Theme::EnPassant => "enPassant".to_owned(),
            Theme::Endgame => "endgame".to_owned(),
            Theme::Equality => "equality".to_owned(),
            Theme::ExposedKing => "exposedKing".to_owned(),
            Theme::Fork => "fork".to_owned(),
            Theme::HangingPiece => "hangingPiece".to_owned(),
            Theme::HookMate => "hookMate".to_owned(),
            Theme::Interference => "interference".to_owned(),
            Theme::Intermezzo => "intermezzo".to_owned(),
            Theme::KingsideAttack => "kingsideAttack".to_owned(),
            Theme::KnightEndgame => "knightEndgame".to_owned(),
            Theme::Long => "long".to_owned(),
            Theme::Master => "master".to_owned(),
            Theme::MasterVsMaster => "masterVsMaster".to_owned(),
            Theme::Mate => "mate".to_owned(),
            Theme::MateIn1 => "mateIn1".to_owned(),
            Theme::MateIn2 => "mateIn2".to_owned(),
            Theme::MateIn3 => "mateIn3".to_owned(),
            Theme::MateIn4 => "mateIn4".to_owned(),
            Theme::MateIn5 => "mateIn5".to_owned(),
            Theme::Middlegame => "middlegame".to_owned(),
            Theme::OneMove => "oneMove".to_owned(),
            Theme::Opening => "opening".to_owned(),
            Theme::PawnEndgame => "pawnEndgame".to_owned(),
            Theme::Pin => "pin".to_owned(),
            Theme::Promotion => "promotion".to_owned(),
            Theme::QueenEndgame => "queenEndgame".to_owned(),
            Theme::QueenRookEndgame => "queenRookEndgame".to_owned(),
            Theme::QueensideAttack => "queensideAttack".to_owned(),
            Theme::QuietMove => "quietMove".to_owned(),
            Theme::RookEndgame => "rookEndgame".to_owned(),
            Theme::Sacrifice => "sacrifice".to_owned(),
            Theme::Short => "short".to_owned(),
            Theme::Skewer => "skewer".to_owned(),
            Theme::SmotheredMate => "smotheredMate".to_owned(),
            Theme::SuperGM => "superGM".to_owned(),
            Theme::TrappedPiece => "trappedPiece".to_owned(),
            Theme::UnderPromotion => "underPromotion".to_owned(),
            Theme::VeryLong => "veryLong".to_owned(),
            Theme::XRayAttack => "xRayAttack".to_owned(),
            Theme::Zugzwang => "zugzwang".to_owned(),
        }
    }
}


/// Parse of the suffix of `s` that starts at `i`, with `cur` the token
/// read so far: tokens are delimited by single spaces, every token must
/// decode, and an empty token (leading, trailing, or doubled spaces) fails.
pub open spec fn parse_rec(s: Seq<char>, i: int, cur: Seq<char>) -> Option<Seq<Theme>>
    decreases s.len() - i,
{
    if i >= s.len() {
        match theme_of_token(cur) {
            Option::None => Option::None,
            Option::Some(t) => Option::Some(seq![t]),
        }
    } else if s[i] == ' ' {
        match theme_of_token(cur) {
            Option::None => Option::None,
            Option::Some(t) => match parse_rec(s, i + 1, Seq::empty()) {
                Option::None => Option::None,
                Option::Some(rest) => Option::Some(seq![t] + rest),
            },
        }
    } else {
        parse_rec(s, i + 1, cur.push(s[i]))
    }
}

/// Parse of a whole space-delimited token list. The empty string is an
/// empty list; otherwise every token must decode to a theme.
pub open spec fn parse_themes(s: Seq<char>) -> Option<Seq<Theme>> {
    if s.len() == 0 {
        Option::Some(Seq::empty())
    } else {
        parse_rec(s, 0, Seq::empty())
    }
}

fn parse_rec_exec(s: &str, i: usize, cur: String) -> (r: Option<Vec<Theme>>)
    requires
        i <= s@.len(),
    ensures
        r matches Some(v) ==> parse_rec(s@, i as int, cur@) == Option::Some(v@),
        r is None ==> parse_rec(s@, i as int, cur@) is None,
    decreases s@.len() - i,
{
    let ghost cur0 = cur@;
    let n = s.unicode_len();
    if i == n {
        match Theme::from_token(cur.as_str()) {
            None => None,
            Some(t) => {
                let mut v: Vec<Theme> = Vec::new();
                v.push(t);
                proof {
                    assert(v@ =~= seq![t]);
                }
                Some(v)
            },
        }
    } else {
        let c = s.get_char(i);
        if c == ' ' {
            match Theme::from_token(cur.as_str()) {
                None => None,
                Some(t) => {
                    match parse_rec_exec(s, i + 1, String::new()) {
                        None => None,
                        Some(mut rest) => {
                            let ghost rest0 = rest@;
                            rest.insert(0, t);
                            proof {
                                assert(rest@ =~= seq![t] + rest0);
                            }
                            Some(rest)
                        },
                    }
                },
            }
        } else {
            let piece = s.substring_char(i, i + 1);
            let mut cur2 = cur;
            cur2.append(piece);
            proof {
                assert(piece@ =~= seq![s@[i as int]]);
                assert(cur2@ =~= cur0.push(s@[i as int]));
            }
            parse_rec_exec(s, i + 1, cur2)
        }
    }
}

/// Parse a whole space-delimited theme token list, as one dataset row
/// carries it: the empty string is an empty list, and any unknown or empty
/// token makes the whole list unreadable.
pub fn parse_theme_list(s: &str) -> (r: Option<Vec<Theme>>)
    ensures
        r matches Some(v) ==> parse_themes(s@) == Option::Some(v@),
        r is None ==> parse_themes(s@) is None,
{
    let n = s.unicode_len();
    if n == 0 {
        let v: Vec<Theme> = Vec::new();
        proof {
            assert(v@ =~= Seq::<Theme>::empty());
        }
        Some(v)
    } else {
        parse_rec_exec(s, 0, String::new())
    }
}

} // verus!

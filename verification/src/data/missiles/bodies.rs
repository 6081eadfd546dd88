use vstd::prelude::*;
use crate::data::InvalidKey;
use crate::text::{chars_of, chars_eq_str};

verus! {

/// A missile body that can be chosen in game.
#[derive(Debug, Clone, Copy, PartialEq, Eq, Structural, PartialOrd, Ord, Hash)]
pub enum MissileBodyKey {
    SGM1Balestra,
    SGM2Tempest,
    SGMH2Cyclone,
    SGMH3Atlatl,
    SGT3Pilum,
    CM4Container,
    CMS4Container,
}

impl MissileBodyKey {
    /// Every `MissileBodyKey`, in declaration order.
    pub open spec fn spec_values() -> Seq<MissileBodyKey> {
        seq![MissileBodyKey::SGM1Balestra, MissileBodyKey::SGM2Tempest, MissileBodyKey::SGMH2Cyclone, MissileBodyKey::SGMH3Atlatl, MissileBodyKey::SGT3Pilum, MissileBodyKey::CM4Container, MissileBodyKey::CMS4Container]
    }

    /// Every `MissileBodyKey`, in declaration order.
    pub fn values() -> (v: Vec<MissileBodyKey>)
        ensures
            v@ == Self::spec_values(),
    {
        vec![MissileBodyKey::SGM1Balestra, MissileBodyKey::SGM2Tempest, MissileBodyKey::SGMH2Cyclone, MissileBodyKey::SGMH3Atlatl, MissileBodyKey::SGT3Pilum, MissileBodyKey::CM4Container, MissileBodyKey::CMS4Container]
    }

    pub open spec fn spec_save_key(self) -> Seq<char> {
        match self {
            MissileBodyKey::SGM1Balestra => "Stock/SGM-1 Body"@,
            MissileBodyKey::SGM2Tempest => "Stock/SGM-2 Body"@,
            MissileBodyKey::SGMH2Cyclone => "Stock/SGM-H-2 Body"@,
            MissileBodyKey::SGMH3Atlatl => "Stock/SGM-H-3 Body"@,
            MissileBodyKey::SGT3Pilum => "Stock/SGT-3 Body"@,
            MissileBodyKey::CM4Container => "Stock/CM-4 Body"@,
            MissileBodyKey::CMS4Container => "Stock/CM-S-4 Body"@,
        }
    }

    /// The key under which fleet files name this missile body.
    pub fn save_key(self) -> (r: &'static str)
        ensures
            r@ == self.spec_save_key(),
    {
        match self {
            MissileBodyKey::SGM1Balestra => "Stock/SGM-1 Body",
            MissileBodyKey::SGM2Tempest => "Stock/SGM-2 Body",
            MissileBodyKey::SGMH2Cyclone => "Stock/SGM-H-2 Body",
            MissileBodyKey::SGMH3Atlatl => "Stock/SGM-H-3 Body",
            MissileBodyKey::SGT3Pilum => "Stock/SGT-3 Body",
            MissileBodyKey::CM4Container => "Stock/CM-4 Body",
            MissileBodyKey::CMS4Container => "Stock/CM-S-4 Body",
        }
    }

    /// What [`MissileBodyKey::from_str`] gives for the text `s`: the value whose
    /// `save_key` is `s`, or the error when there is none.
    pub open spec fn spec_from_str(s: Seq<char>) -> Result<MissileBodyKey, InvalidKey> {
        if exists|k: MissileBodyKey| k.spec_save_key() == s {
            Ok(choose|k: MissileBodyKey| k.spec_save_key() == s)
        } else {
            Err(InvalidKey::MissileBody)
        }
    }

    /// Parses the text that [`MissileBodyKey::save_key`] gives.
    pub fn from_str(s: &str) -> (r: Result<MissileBodyKey, InvalidKey>)
        ensures
            r == Self::spec_from_str(s@),
    {
        proof { lemma_missile_body_key_save_key_injective(); }
        let chars = chars_of(s);
        if chars_eq_str(&chars, "Stock/SGM-1 Body") {
            proof { assert(MissileBodyKey::SGM1Balestra.spec_save_key() == s@); }
            return Ok(MissileBodyKey::SGM1Balestra);
        }
        if chars_eq_str(&chars, "Stock/SGM-2 Body") {
            proof { assert(MissileBodyKey::SGM2Tempest.spec_save_key() == s@); }
            return Ok(MissileBodyKey::SGM2Tempest);
        }
        if chars_eq_str(&chars, "Stock/SGM-H-2 Body") {
            proof { assert(MissileBodyKey::SGMH2Cyclone.spec_save_key() == s@); }
            return Ok(MissileBodyKey::SGMH2Cyclone);
        }
        if chars_eq_str(&chars, "Stock/SGM-H-3 Body") {
            proof { assert(MissileBodyKey::SGMH3Atlatl.spec_save_key() == s@); }
            return Ok(MissileBodyKey::SGMH3Atlatl);
        }
        if chars_eq_str(&chars, "Stock/SGT-3 Body") {
            proof { assert(MissileBodyKey::SGT3Pilum.spec_save_key() == s@); }
            return Ok(MissileBodyKey::SGT3Pilum);
        }
        if chars_eq_str(&chars, "Stock/CM-4 Body") {
            proof { assert(MissileBodyKey::CM4Container.spec_save_key() == s@); }
            return Ok(MissileBodyKey::CM4Container);
        }
        if chars_eq_str(&chars, "Stock/CM-S-4 Body") {
            proof { assert(MissileBodyKey::CMS4Container.spec_save_key() == s@); }
            return Ok(MissileBodyKey::CMS4Container);
        }
        Err(InvalidKey::MissileBody)
    }
}

spec fn missile_body_key_save_key_fingerprint(s: Seq<char>) -> int {
    s.len() as int
        + (if 10 < s.len() { s[10] as int } else { 0 }) * 2097152
        + (if 12 < s.len() { s[12] as int } else { 0 }) * 4398046511104
}

spec fn missile_body_key_from_save_key_fingerprint(n: int) -> Option<MissileBodyKey> {
    if n == 290271172493328 {
        Some(MissileBodyKey::SGM1Balestra)
    } else if n == 290271174590480 {
        Some(MissileBodyKey::SGM2Tempest)
    } else if n == 219902476550162 {
        Some(MissileBodyKey::SGMH2Cyclone)
    } else if n == 224300523061266 {
        Some(MissileBodyKey::SGMH3Atlatl)
    } else if n == 290271176687632 {
        Some(MissileBodyKey::SGT3Pilum)
    } else if n == 488183229841423 {
        Some(MissileBodyKey::CM4Container)
    } else if n == 140737582727185 {
        Some(MissileBodyKey::CMS4Container)
    } else {
        None
    }
}

proof fn lemma_missile_body_key_save_key_fingerprint(k: MissileBodyKey)
    ensures
        missile_body_key_from_save_key_fingerprint(missile_body_key_save_key_fingerprint(k.spec_save_key())) == Some(k),
{
    match k {
        MissileBodyKey::SGM1Balestra => {
            reveal_strlit("Stock/SGM-1 Body");
        },
        MissileBodyKey::SGM2Tempest => {
            reveal_strlit("Stock/SGM-2 Body");
        },
        MissileBodyKey::SGMH2Cyclone => {
            reveal_strlit("Stock/SGM-H-2 Body");
        },
        MissileBodyKey::SGMH3Atlatl => {
            reveal_strlit("Stock/SGM-H-3 Body");
        },
        MissileBodyKey::SGT3Pilum => {
            reveal_strlit("Stock/SGT-3 Body");
        },
        MissileBodyKey::CM4Container => {
            reveal_strlit("Stock/CM-4 Body");
        },
        MissileBodyKey::CMS4Container => {
            reveal_strlit("Stock/CM-S-4 Body");
        },
    }
}

/// No two `MissileBodyKey` values share a `save_key`.
pub proof fn lemma_missile_body_key_save_key_injective()
    ensures
        forall|a: MissileBodyKey, b: MissileBodyKey| a.spec_save_key() == b.spec_save_key() ==> a == b,
{
    assert forall|a: MissileBodyKey, b: MissileBodyKey| a.spec_save_key() == b.spec_save_key() implies a == b by {
        lemma_missile_body_key_save_key_fingerprint(a);
        lemma_missile_body_key_save_key_fingerprint(b);
    }
}

/// Parsing the text of a `MissileBodyKey` gives that `MissileBodyKey` back.
pub proof fn lemma_missile_body_key_round_trip(k: MissileBodyKey)
    ensures
        MissileBodyKey::spec_from_str(k.spec_save_key()) == Ok::<MissileBodyKey, InvalidKey>(k),
{
    lemma_missile_body_key_save_key_injective();
}

} // verus!

verus! {

/// Which kinds of missile component a socket of a missile body takes.
#[derive(Debug, Clone, Copy, PartialEq, Eq, Structural)]
pub struct MissileComponentsMask {
    pub allow_seekers: bool,
    pub allow_auxiliary: bool,
    pub allow_avionics: bool,
    pub allow_warheads: bool,
}

impl MissileComponentsMask {
    /// Every kind of missile component.
    pub fn mask_all() -> (r: MissileComponentsMask)
        ensures
            r == (MissileComponentsMask { allow_seekers: true, allow_auxiliary: true, allow_avionics: true, allow_warheads: true }),
    {
        MissileComponentsMask { allow_seekers: true, allow_auxiliary: true, allow_avionics: true, allow_warheads: true }
    }

    /// No kind of missile component.
    pub fn mask_none() -> (r: MissileComponentsMask)
        ensures
            r == (MissileComponentsMask { allow_seekers: false, allow_auxiliary: false, allow_avionics: false, allow_warheads: false }),
    {
        MissileComponentsMask { allow_seekers: false, allow_auxiliary: false, allow_avionics: false, allow_warheads: false }
    }

    /// Every kind but avionics.
    pub fn all_except_avionics() -> (r: MissileComponentsMask)
        ensures
            r == (MissileComponentsMask { allow_seekers: true, allow_auxiliary: true, allow_avionics: false, allow_warheads: true }),
    {
        MissileComponentsMask { allow_seekers: true, allow_auxiliary: true, allow_avionics: false, allow_warheads: true }
    }

    /// Seekers only.
    pub fn only_seekers() -> (r: MissileComponentsMask)
        ensures
            r == (MissileComponentsMask { allow_seekers: true, allow_auxiliary: false, allow_avionics: false, allow_warheads: false }),
    {
        MissileComponentsMask { allow_seekers: true, allow_auxiliary: false, allow_avionics: false, allow_warheads: false }
    }

    /// Auxiliary components only.
    pub fn only_auxiliary() -> (r: MissileComponentsMask)
        ensures
            r == (MissileComponentsMask { allow_seekers: false, allow_auxiliary: true, allow_avionics: false, allow_warheads: false }),
    {
        MissileComponentsMask { allow_seekers: false, allow_auxiliary: true, allow_avionics: false, allow_warheads: false }
    }

    /// Warheads only.
    pub fn only_warheads() -> (r: MissileComponentsMask)
        ensures
            r == (MissileComponentsMask { allow_seekers: false, allow_auxiliary: false, allow_avionics: false, allow_warheads: true }),
    {
        MissileComponentsMask { allow_seekers: false, allow_auxiliary: false, allow_avionics: false, allow_warheads: true }
    }

    /// Seekers and auxiliary components.
    pub fn only_seekers_auxiliary() -> (r: MissileComponentsMask)
        ensures
            r == (MissileComponentsMask { allow_seekers: true, allow_auxiliary: true, allow_avionics: false, allow_warheads: false }),
    {
        MissileComponentsMask { allow_seekers: true, allow_auxiliary: true, allow_avionics: false, allow_warheads: false }
    }

    /// Warheads and auxiliary components.
    pub fn only_warheads_auxiliary() -> (r: MissileComponentsMask)
        ensures
            r == (MissileComponentsMask { allow_seekers: false, allow_auxiliary: true, allow_avionics: false, allow_warheads: true }),
    {
        MissileComponentsMask { allow_seekers: false, allow_auxiliary: true, allow_avionics: false, allow_warheads: true }
    }

    /// Avionics only.
    pub fn only_avionics() -> (r: MissileComponentsMask)
        ensures
            r == (MissileComponentsMask { allow_seekers: false, allow_auxiliary: false, allow_avionics: true, allow_warheads: false }),
    {
        MissileComponentsMask { allow_seekers: false, allow_auxiliary: false, allow_avionics: true, allow_warheads: false }
    }

}

} // verus!

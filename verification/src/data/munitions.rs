use vstd::prelude::*;
use crate::text::{chars_of, chars_eq_str};

verus! {

/// A munition that can be loaded into a magazine or launcher.
#[derive(Debug, Clone, Copy, PartialEq, Eq, Structural, PartialOrd, Ord, Hash)]
pub enum MunitionKey {
    A15mmSandshot,
    A20mmSlug,
    A100mmAP,
    A100mmGrape,
    A100mmHE,
    A100mmHEHC,
    A120mmAP,
    A120mmHE,
    A120mmHERPF,
    A250mmAP,
    A250mmHE,
    A250mmHERPF,
    A300mmAPRailSabot,
    A400mmPlasmaAmpoule,
    A450mmAP,
    A450mmHE,
    A500mmFracturingBlock,
    A600mmBomb,
    A600mmHESH,
    CM4D1DecoyContainerClipper,
    CM4D2DecoyContainerLineShip,
    CM4MMineContainer,
    CM4R12RocketContainer,
    CM4R6RocketContainer,
    EA12ChaffDecoy,
    EA20FlareDecoy,
    EA99ActiveDecoy,
    FlakRound,
    M30MattockMine,
    M30NMattockCooperativeMine,
    M50AugerSprintMine,
    R2PiranhaRocket,
}

impl MunitionKey {
    /// Every `MunitionKey`, in declaration order.
    pub open spec fn spec_values() -> Seq<MunitionKey> {
        seq![MunitionKey::A15mmSandshot, MunitionKey::A20mmSlug, MunitionKey::A100mmAP, MunitionKey::A100mmGrape, MunitionKey::A100mmHE, MunitionKey::A100mmHEHC, MunitionKey::A120mmAP, MunitionKey::A120mmHE, MunitionKey::A120mmHERPF, MunitionKey::A250mmAP, MunitionKey::A250mmHE, MunitionKey::A250mmHERPF, MunitionKey::A300mmAPRailSabot, MunitionKey::A400mmPlasmaAmpoule, MunitionKey::A450mmAP, MunitionKey::A450mmHE, MunitionKey::A500mmFracturingBlock, MunitionKey::A600mmBomb, MunitionKey::A600mmHESH, MunitionKey::CM4D1DecoyContainerClipper, MunitionKey::CM4D2DecoyContainerLineShip, MunitionKey::CM4MMineContainer, MunitionKey::CM4R12RocketContainer, MunitionKey::CM4R6RocketContainer, MunitionKey::EA12ChaffDecoy, MunitionKey::EA20FlareDecoy, MunitionKey::EA99ActiveDecoy, MunitionKey::FlakRound, MunitionKey::M30MattockMine, MunitionKey::M30NMattockCooperativeMine, MunitionKey::M50AugerSprintMine, MunitionKey::R2PiranhaRocket]
    }

    /// Every `MunitionKey`, in declaration order.
    pub fn values() -> (v: Vec<MunitionKey>)
        ensures
            v@ == Self::spec_values(),
    {
        vec![MunitionKey::A15mmSandshot, MunitionKey::A20mmSlug, MunitionKey::A100mmAP, MunitionKey::A100mmGrape, MunitionKey::A100mmHE, MunitionKey::A100mmHEHC, MunitionKey::A120mmAP, MunitionKey::A120mmHE, MunitionKey::A120mmHERPF, MunitionKey::A250mmAP, MunitionKey::A250mmHE, MunitionKey::A250mmHERPF, MunitionKey::A300mmAPRailSabot, MunitionKey::A400mmPlasmaAmpoule, MunitionKey::A450mmAP, MunitionKey::A450mmHE, MunitionKey::A500mmFracturingBlock, MunitionKey::A600mmBomb, MunitionKey::A600mmHESH, MunitionKey::CM4D1DecoyContainerClipper, MunitionKey::CM4D2DecoyContainerLineShip, MunitionKey::CM4MMineContainer, MunitionKey::CM4R12RocketContainer, MunitionKey::CM4R6RocketContainer, MunitionKey::EA12ChaffDecoy, MunitionKey::EA20FlareDecoy, MunitionKey::EA99ActiveDecoy, MunitionKey::FlakRound, MunitionKey::M30MattockMine, MunitionKey::M30NMattockCooperativeMine, MunitionKey::M50AugerSprintMine, MunitionKey::R2PiranhaRocket]
    }

    pub open spec fn spec_save_key(self) -> Seq<char> {
        match self {
            MunitionKey::A15mmSandshot => "Stock/15mm Sandshot"@,
            MunitionKey::A20mmSlug => "Stock/20mm Slug"@,
            MunitionKey::A100mmAP => "Stock/100mm AP Shell"@,
            MunitionKey::A100mmGrape => "Stock/100mm Grapeshot"@,
            MunitionKey::A100mmHE => "Stock/100mm HE Shell"@,
            MunitionKey::A100mmHEHC => "Stock/100mm HE-HC Shell"@,
            MunitionKey::A120mmAP => "Stock/120mm AP Shell"@,
            MunitionKey::A120mmHE => "Stock/120mm HE Shell"@,
            MunitionKey::A120mmHERPF => "Stock/120mm HE-RPF Shell"@,
            MunitionKey::A250mmAP => "Stock/250mm AP Shell"@,
            MunitionKey::A250mmHE => "Stock/250mm HE Shell"@,
            MunitionKey::A250mmHERPF => "Stock/250mm HE-RPF Shell"@,
            MunitionKey::A300mmAPRailSabot => "Stock/300mm AP Rail Sabot"@,
            MunitionKey::A400mmPlasmaAmpoule => "Stock/400mm Plasma Ampoule"@,
            MunitionKey::A450mmAP => "Stock/450mm AP Shell"@,
            MunitionKey::A450mmHE => "Stock/450mm HE Shell"@,
            MunitionKey::A500mmFracturingBlock => "Stock/500mm Fracturing Block"@,
            MunitionKey::A600mmBomb => "Stock/600mm Bomb Shell"@,
            MunitionKey::A600mmHESH => "Stock/600mm HE Shell"@,
            MunitionKey::CM4D1DecoyContainerClipper => "Stock/Decoy Container (Clipper)"@,
            MunitionKey::CM4D2DecoyContainerLineShip => "Stock/Decoy Container (Line Ship)"@,
            MunitionKey::CM4MMineContainer => "Stock/Mine Container"@,
            MunitionKey::CM4R12RocketContainer => "Stock/Rocket Container 12"@,
            MunitionKey::CM4R6RocketContainer => "Stock/Rocket Container"@,
            MunitionKey::EA12ChaffDecoy => "Stock/EA12 Chaff Decoy"@,
            MunitionKey::EA20FlareDecoy => "Stock/EA20 Flare Decoy"@,
            MunitionKey::EA99ActiveDecoy => "Stock/EA99 Active Decoy"@,
            MunitionKey::FlakRound => "Stock/Flak Round"@,
            MunitionKey::M30MattockMine => "Stock/S3 Mine"@,
            MunitionKey::M30NMattockCooperativeMine => "Stock/S3 Net Mine"@,
            MunitionKey::M50AugerSprintMine => "Stock/S3 Sprint Mine"@,
            MunitionKey::R2PiranhaRocket => "Stock/S1 Rocket"@,
        }
    }

    /// The key under which fleet files name this munition.
    pub fn save_key(self) -> (r: &'static str)
        ensures
            r@ == self.spec_save_key(),
    {
        match self {
            MunitionKey::A15mmSandshot => "Stock/15mm Sandshot",
            MunitionKey::A20mmSlug => "Stock/20mm Slug",
            MunitionKey::A100mmAP => "Stock/100mm AP Shell",
            MunitionKey::A100mmGrape => "Stock/100mm Grapeshot",
            MunitionKey::A100mmHE => "Stock/100mm HE Shell",
            MunitionKey::A100mmHEHC => "Stock/100mm HE-HC Shell",
            MunitionKey::A120mmAP => "Stock/120mm AP Shell",
            MunitionKey::A120mmHE => "Stock/120mm HE Shell",
            MunitionKey::A120mmHERPF => "Stock/120mm HE-RPF Shell",
            MunitionKey::A250mmAP => "Stock/250mm AP Shell",
            MunitionKey::A250mmHE => "Stock/250mm HE Shell",
            MunitionKey::A250mmHERPF => "Stock/250mm HE-RPF Shell",
            MunitionKey::A300mmAPRailSabot => "Stock/300mm AP Rail Sabot",
            MunitionKey::A400mmPlasmaAmpoule => "Stock/400mm Plasma Ampoule",
            MunitionKey::A450mmAP => "Stock/450mm AP Shell",
            MunitionKey::A450mmHE => "Stock/450mm HE Shell",
            MunitionKey::A500mmFracturingBlock => "Stock/500mm Fracturing Block",
            MunitionKey::A600mmBomb => "Stock/600mm Bomb Shell",
            MunitionKey::A600mmHESH => "Stock/600mm HE Shell",
            MunitionKey::CM4D1DecoyContainerClipper => "Stock/Decoy Container (Clipper)",
            MunitionKey::CM4D2DecoyContainerLineShip => "Stock/Decoy Container (Line Ship)",
            MunitionKey::CM4MMineContainer => "Stock/Mine Container",
            MunitionKey::CM4R12RocketContainer => "Stock/Rocket Container 12",
            MunitionKey::CM4R6RocketContainer => "Stock/Rocket Container",
            MunitionKey::EA12ChaffDecoy => "Stock/EA12 Chaff Decoy",
            MunitionKey::EA20FlareDecoy => "Stock/EA20 Flare Decoy",
            MunitionKey::EA99ActiveDecoy => "Stock/EA99 Active Decoy",
            MunitionKey::FlakRound => "Stock/Flak Round",
            MunitionKey::M30MattockMine => "Stock/S3 Mine",
            MunitionKey::M30NMattockCooperativeMine => "Stock/S3 Net Mine",
            MunitionKey::M50AugerSprintMine => "Stock/S3 Sprint Mine",
            MunitionKey::R2PiranhaRocket => "Stock/S1 Rocket",
        }
    }

    /// What [`MunitionKey::from_str`] gives for the text `s`: the value whose
    /// `save_key` is `s`, or the error when there is none.
    pub open spec fn spec_from_str(s: Seq<char>) -> Result<MunitionKey, ()> {
        if exists|k: MunitionKey| k.spec_save_key() == s {
            Ok(choose|k: MunitionKey| k.spec_save_key() == s)
        } else {
            Err(())
        }
    }

    /// Parses the text that [`MunitionKey::save_key`] gives.
    pub fn from_str(s: &str) -> (r: Result<MunitionKey, ()>)
        ensures
            r == Self::spec_from_str(s@),
    {
        proof { lemma_munition_key_save_key_injective(); }
        let chars = chars_of(s);
        if chars_eq_str(&chars, "Stock/15mm Sandshot") {
            proof { assert(MunitionKey::A15mmSandshot.spec_save_key() == s@); }
            return Ok(MunitionKey::A15mmSandshot);
        }
        if chars_eq_str(&chars, "Stock/20mm Slug") {
            proof { assert(MunitionKey::A20mmSlug.spec_save_key() == s@); }
            return Ok(MunitionKey::A20mmSlug);
        }
        if chars_eq_str(&chars, "Stock/100mm AP Shell") {
            proof { assert(MunitionKey::A100mmAP.spec_save_key() == s@); }
            return Ok(MunitionKey::A100mmAP);
        }
        if chars_eq_str(&chars, "Stock/100mm Grapeshot") {
            proof { assert(MunitionKey::A100mmGrape.spec_save_key() == s@); }
            return Ok(MunitionKey::A100mmGrape);
        }
        if chars_eq_str(&chars, "Stock/100mm HE Shell") {
            proof { assert(MunitionKey::A100mmHE.spec_save_key() == s@); }
            return Ok(MunitionKey::A100mmHE);
        }
        if chars_eq_str(&chars, "Stock/100mm HE-HC Shell") {
            proof { assert(MunitionKey::A100mmHEHC.spec_save_key() == s@); }
            return Ok(MunitionKey::A100mmHEHC);
        }
        if chars_eq_str(&chars, "Stock/120mm AP Shell") {
            proof { assert(MunitionKey::A120mmAP.spec_save_key() == s@); }
            return Ok(MunitionKey::A120mmAP);
        }
        if chars_eq_str(&chars, "Stock/120mm HE Shell") {
            proof { assert(MunitionKey::A120mmHE.spec_save_key() == s@); }
            return Ok(MunitionKey::A120mmHE);
        }
        if chars_eq_str(&chars, "Stock/120mm HE-RPF Shell") {
            proof { assert(MunitionKey::A120mmHERPF.spec_save_key() == s@); }
            return Ok(MunitionKey::A120mmHERPF);
        }
        if chars_eq_str(&chars, "Stock/250mm AP Shell") {
            proof { assert(MunitionKey::A250mmAP.spec_save_key() == s@); }
            return Ok(MunitionKey::A250mmAP);
        }
        if chars_eq_str(&chars, "Stock/250mm HE Shell") {
            proof { assert(MunitionKey::A250mmHE.spec_save_key() == s@); }
            return Ok(MunitionKey::A250mmHE);
        }
        if chars_eq_str(&chars, "Stock/250mm HE-RPF Shell") {
            proof { assert(MunitionKey::A250mmHERPF.spec_save_key() == s@); }
            return Ok(MunitionKey::A250mmHERPF);
        }
        if chars_eq_str(&chars, "Stock/300mm AP Rail Sabot") {
            proof { assert(MunitionKey::A300mmAPRailSabot.spec_save_key() == s@); }
            return Ok(MunitionKey::A300mmAPRailSabot);
        }
        if chars_eq_str(&chars, "Stock/400mm Plasma Ampoule") {
            proof { assert(MunitionKey::A400mmPlasmaAmpoule.spec_save_key() == s@); }
            return Ok(MunitionKey::A400mmPlasmaAmpoule);
        }
        if chars_eq_str(&chars, "Stock/450mm AP Shell") {
            proof { assert(MunitionKey::A450mmAP.spec_save_key() == s@); }
            return Ok(MunitionKey::A450mmAP);
        }
        if chars_eq_str(&chars, "Stock/450mm HE Shell") {
            proof { assert(MunitionKey::A450mmHE.spec_save_key() == s@); }
            return Ok(MunitionKey::A450mmHE);
        }
        if chars_eq_str(&chars, "Stock/500mm Fracturing Block") {
            proof { assert(MunitionKey::A500mmFracturingBlock.spec_save_key() == s@); }
            return Ok(MunitionKey::A500mmFracturingBlock);
        }
        if chars_eq_str(&chars, "Stock/600mm Bomb Shell") {
            proof { assert(MunitionKey::A600mmBomb.spec_save_key() == s@); }
            return Ok(MunitionKey::A600mmBomb);
        }
        if chars_eq_str(&chars, "Stock/600mm HE Shell") {
            proof { assert(MunitionKey::A600mmHESH.spec_save_key() == s@); }
            return Ok(MunitionKey::A600mmHESH);
        }
        if chars_eq_str(&chars, "Stock/Decoy Container (Clipper)") {
            proof { assert(MunitionKey::CM4D1DecoyContainerClipper.spec_save_key() == s@); }
            return Ok(MunitionKey::CM4D1DecoyContainerClipper);
        }
        if chars_eq_str(&chars, "Stock/Decoy Container (Line Ship)") {
            proof { assert(MunitionKey::CM4D2DecoyContainerLineShip.spec_save_key() == s@); }
            return Ok(MunitionKey::CM4D2DecoyContainerLineShip);
        }
        if chars_eq_str(&chars, "Stock/Mine Container") {
            proof { assert(MunitionKey::CM4MMineContainer.spec_save_key() == s@); }
            return Ok(MunitionKey::CM4MMineContainer);
        }
        if chars_eq_str(&chars, "Stock/Rocket Container 12") {
            proof { assert(MunitionKey::CM4R12RocketContainer.spec_save_key() == s@); }
            return Ok(MunitionKey::CM4R12RocketContainer);
        }
        if chars_eq_str(&chars, "Stock/Rocket Container") {
            proof { assert(MunitionKey::CM4R6RocketContainer.spec_save_key() == s@); }
            return Ok(MunitionKey::CM4R6RocketContainer);
        }
        if chars_eq_str(&chars, "Stock/EA12 Chaff Decoy") {
            proof { assert(MunitionKey::EA12ChaffDecoy.spec_save_key() == s@); }
            return Ok(MunitionKey::EA12ChaffDecoy);
        }
        if chars_eq_str(&chars, "Stock/EA20 Flare Decoy") {
            proof { assert(MunitionKey::EA20FlareDecoy.spec_save_key() == s@); }
            return Ok(MunitionKey::EA20FlareDecoy);
        }
        if chars_eq_str(&chars, "Stock/EA99 Active Decoy") {
            proof { assert(MunitionKey::EA99ActiveDecoy.spec_save_key() == s@); }
            return Ok(MunitionKey::EA99ActiveDecoy);
        }
        if chars_eq_str(&chars, "Stock/Flak Round") {
            proof { assert(MunitionKey::FlakRound.spec_save_key() == s@); }
            return Ok(MunitionKey::FlakRound);
        }
        if chars_eq_str(&chars, "Stock/S3 Mine") {
            proof { assert(MunitionKey::M30MattockMine.spec_save_key() == s@); }
            return Ok(MunitionKey::M30MattockMine);
        }
        if chars_eq_str(&chars, "Stock/S3 Net Mine") {
            proof { assert(MunitionKey::M30NMattockCooperativeMine.spec_save_key() == s@); }
            return Ok(MunitionKey::M30NMattockCooperativeMine);
        }
        if chars_eq_str(&chars, "Stock/S3 Sprint Mine") {
            proof { assert(MunitionKey::M50AugerSprintMine.spec_save_key() == s@); }
            return Ok(MunitionKey::M50AugerSprintMine);
        }
        if chars_eq_str(&chars, "Stock/S1 Rocket") {
            proof { assert(MunitionKey::R2PiranhaRocket.spec_save_key() == s@); }
            return Ok(MunitionKey::R2PiranhaRocket);
        }
        Err(())
    }
}

spec fn munition_key_save_key_fingerprint(s: Seq<char>) -> int {
    s.len() as int
        + (if 6 < s.len() { s[6] as int } else { 0 }) * 2097152
        + (if 12 < s.len() { s[12] as int } else { 0 }) * 4398046511104
        + (if 7 < s.len() { s[7] as int } else { 0 }) * 9223372036854775808
}

spec fn munition_key_from_save_key_fingerprint(n: int) -> Option<MunitionKey> {
    if n == 488839144563917455379 {
        Some(MunitionKey::A15mmSandshot)
    } else if n == 442722332758157295631 {
        Some(MunitionKey::A20mmSlug)
    } else if n == 442722143642155221012 {
        Some(MunitionKey::A100mmAP)
    } else if n == 442722170030434287637 {
        Some(MunitionKey::A100mmGrape)
    } else if n == 442722174428480798740 {
        Some(MunitionKey::A100mmHE)
    } else if n == 442722174428480798743 {
        Some(MunitionKey::A100mmHEHC)
    } else if n == 461168887715864772628 {
        Some(MunitionKey::A120mmAP)
    } else if n == 461168918502190350356 {
        Some(MunitionKey::A120mmHE)
    } else if n == 461168918502190350360 {
        Some(MunitionKey::A120mmHERPF)
    } else if n == 488839003826431197204 {
        Some(MunitionKey::A250mmAP)
    } else if n == 488839034612756774932 {
        Some(MunitionKey::A250mmHE)
    } else if n == 488839034612756774936 {
        Some(MunitionKey::A250mmHERPF)
    } else if n == 442722143642159415321 {
        Some(MunitionKey::A300mmAPRailSabot)
    } else if n == 442722209612859179034 {
        Some(MunitionKey::A400mmPlasmaAmpoule)
    } else if n == 488839003826435391508 {
        Some(MunitionKey::A450mmAP)
    } else if n == 488839034612760969236 {
        Some(MunitionKey::A450mmHE)
    } else if n == 442722165632396165148 {
        Some(MunitionKey::A500mmFracturingBlock)
    } else if n == 442722148040212217878 {
        Some(MunitionKey::A600mmBomb)
    } else if n == 442722174428491284500 {
        Some(MunitionKey::A600mmHESH)
    } else if n == 931560870391591206943 {
        Some(MunitionKey::CM4D1DecoyContainerClipper)
    } else if n == 931560870391591206945 {
        Some(MunitionKey::CM4D2DecoyContainerLineShip)
    } else if n == 968454552053075673108 {
        Some(MunitionKey::CM4MMineContainer)
    } else if n == 1023794436828540436505 {
        Some(MunitionKey::CM4R12RocketContainer)
    } else if n == 1023794436828540436502 {
        Some(MunitionKey::CM4R6RocketContainer)
    } else if n == 599519639792542285846 {
        Some(MunitionKey::EA12ChaffDecoy)
    } else if n == 599519657384728330262 {
        Some(MunitionKey::EA20FlareDecoy)
    } else if n == 599519617802309730327 {
        Some(MunitionKey::EA99ActiveDecoy)
    } else if n == 996124668163625320464 {
        Some(MunitionKey::FlakRound)
    } else if n == 470392418082465251341 {
        Some(MunitionKey::M30MattockMine)
    } else if n == 470392114617255985169 {
        Some(MunitionKey::M30NMattockCooperativeMine)
    } else if n == 470392435674651295764 {
        Some(MunitionKey::M50AugerSprintMine)
    } else if n == 451945700397034766351 {
        Some(MunitionKey::R2PiranhaRocket)
    } else {
        None
    }
}

proof fn lemma_munition_key_save_key_fingerprint(k: MunitionKey)
    ensures
        munition_key_from_save_key_fingerprint(munition_key_save_key_fingerprint(k.spec_save_key())) == Some(k),
{
    match k {
        MunitionKey::A15mmSandshot => {
            reveal_strlit("Stock/15mm Sandshot");
        },
        MunitionKey::A20mmSlug => {
            reveal_strlit("Stock/20mm Slug");
        },
        MunitionKey::A100mmAP => {
            reveal_strlit("Stock/100mm AP Shell");
        },
        MunitionKey::A100mmGrape => {
            reveal_strlit("Stock/100mm Grapeshot");
        },
        MunitionKey::A100mmHE => {
            reveal_strlit("Stock/100mm HE Shell");
        },
        MunitionKey::A100mmHEHC => {
            reveal_strlit("Stock/100mm HE-HC Shell");
        },
        MunitionKey::A120mmAP => {
            reveal_strlit("Stock/120mm AP Shell");
        },
        MunitionKey::A120mmHE => {
            reveal_strlit("Stock/120mm HE Shell");
        },
        MunitionKey::A120mmHERPF => {
            reveal_strlit("Stock/120mm HE-RPF Shell");
        },
        MunitionKey::A250mmAP => {
            reveal_strlit("Stock/250mm AP Shell");
        },
        MunitionKey::A250mmHE => {
            reveal_strlit("Stock/250mm HE Shell");
        },
        MunitionKey::A250mmHERPF => {
            reveal_strlit("Stock/250mm HE-RPF Shell");
        },
        MunitionKey::A300mmAPRailSabot => {
            reveal_strlit("Stock/300mm AP Rail Sabot");
        },
        MunitionKey::A400mmPlasmaAmpoule => {
            reveal_strlit("Stock/400mm Plasma Ampoule");
        },
        MunitionKey::A450mmAP => {
            reveal_strlit("Stock/450mm AP Shell");
        },
        MunitionKey::A450mmHE => {
            reveal_strlit("Stock/450mm HE Shell");
        },
        MunitionKey::A500mmFracturingBlock => {
            reveal_strlit("Stock/500mm Fracturing Block");
        },
        MunitionKey::A600mmBomb => {
            reveal_strlit("Stock/600mm Bomb Shell");
        },
        MunitionKey::A600mmHESH => {
            reveal_strlit("Stock/600mm HE Shell");
        },
        MunitionKey::CM4D1DecoyContainerClipper => {
            reveal_strlit("Stock/Decoy Container (Clipper)");
        },
        MunitionKey::CM4D2DecoyContainerLineShip => {
            reveal_strlit("Stock/Decoy Container (Line Ship)");
        },
        MunitionKey::CM4MMineContainer => {
            reveal_strlit("Stock/Mine Container");
        },
        MunitionKey::CM4R12RocketContainer => {
            reveal_strlit("Stock/Rocket Container 12");
        },
        MunitionKey::CM4R6RocketContainer => {
            reveal_strlit("Stock/Rocket Container");
        },
        MunitionKey::EA12ChaffDecoy => {
            reveal_strlit("Stock/EA12 Chaff Decoy");
        },
        MunitionKey::EA20FlareDecoy => {
            reveal_strlit("Stock/EA20 Flare Decoy");
        },
        MunitionKey::EA99ActiveDecoy => {
            reveal_strlit("Stock/EA99 Active Decoy");
        },
        MunitionKey::FlakRound => {
            reveal_strlit("Stock/Flak Round");
        },
        MunitionKey::M30MattockMine => {
            reveal_strlit("Stock/S3 Mine");
        },
        MunitionKey::M30NMattockCooperativeMine => {
            reveal_strlit("Stock/S3 Net Mine");
        },
        MunitionKey::M50AugerSprintMine => {
            reveal_strlit("Stock/S3 Sprint Mine");
        },
        MunitionKey::R2PiranhaRocket => {
            reveal_strlit("Stock/S1 Rocket");
        },
    }
}

/// No two `MunitionKey` values share a `save_key`.
pub proof fn lemma_munition_key_save_key_injective()
    ensures
        forall|a: MunitionKey, b: MunitionKey| a.spec_save_key() == b.spec_save_key() ==> a == b,
{
    assert forall|a: MunitionKey, b: MunitionKey| a.spec_save_key() == b.spec_save_key() implies a == b by {
        lemma_munition_key_save_key_fingerprint(a);
        lemma_munition_key_save_key_fingerprint(b);
    }
}

/// Parsing the text of a `MunitionKey` gives that `MunitionKey` back.
pub proof fn lemma_munition_key_round_trip(k: MunitionKey)
    ensures
        MunitionKey::spec_from_str(k.spec_save_key()) == Ok::<MunitionKey, ()>(k),
{
    lemma_munition_key_save_key_injective();
}

} // verus!

verus! {

/// What a weapon or munition is for.
#[derive(Debug, Clone, Copy, PartialEq, Eq, Structural, PartialOrd, Ord, Hash)]
pub enum WeaponRole {
    Offensive,
    Defensive,
    DualPurpose,
    Utility,
    Decoy,
}

/// The family of weapons a munition is fired from.
#[derive(Debug, Clone, Copy, PartialEq, Eq, Structural, PartialOrd, Ord, Hash)]
pub enum MunitionFamily {
    BallisticMagnetic15mm,
    BallisticChemical20mm,
    BallisticChemical50mmFlak,
    BallisticChemical100mm,
    BallisticChemical120mm,
    BallisticChemical250mm,
    BallisticMagnetic300mmRailgun,
    BallisticMagnetic400mmPlasma,
    BallisticChemical450mm,
    BallisticMagnetic500mmMassDriver,
    BallisticChemical600mm,
    StandardMissile,
    ContainerMissile,
    LoiteringMine,
    UnguidedRocket,
    Infinite,
}

impl MunitionKey {
    pub open spec fn spec_family(self) -> MunitionFamily {
        match self {
            MunitionKey::A15mmSandshot => MunitionFamily::BallisticMagnetic15mm,
            MunitionKey::A20mmSlug => MunitionFamily::BallisticChemical20mm,
            MunitionKey::A100mmAP => MunitionFamily::BallisticChemical100mm,
            MunitionKey::A100mmGrape => MunitionFamily::BallisticChemical100mm,
            MunitionKey::A100mmHE => MunitionFamily::BallisticChemical100mm,
            MunitionKey::A100mmHEHC => MunitionFamily::BallisticChemical100mm,
            MunitionKey::A120mmAP => MunitionFamily::BallisticChemical120mm,
            MunitionKey::A120mmHE => MunitionFamily::BallisticChemical120mm,
            MunitionKey::A120mmHERPF => MunitionFamily::BallisticChemical120mm,
            MunitionKey::A250mmAP => MunitionFamily::BallisticChemical250mm,
            MunitionKey::A250mmHE => MunitionFamily::BallisticChemical250mm,
            MunitionKey::A250mmHERPF => MunitionFamily::BallisticChemical250mm,
            MunitionKey::A300mmAPRailSabot => MunitionFamily::BallisticMagnetic300mmRailgun,
            MunitionKey::A400mmPlasmaAmpoule => MunitionFamily::BallisticMagnetic400mmPlasma,
            MunitionKey::A450mmAP => MunitionFamily::BallisticChemical450mm,
            MunitionKey::A450mmHE => MunitionFamily::BallisticChemical450mm,
            MunitionKey::A500mmFracturingBlock => MunitionFamily::BallisticMagnetic500mmMassDriver,
            MunitionKey::A600mmBomb => MunitionFamily::BallisticChemical600mm,
            MunitionKey::A600mmHESH => MunitionFamily::BallisticChemical600mm,
            MunitionKey::CM4D1DecoyContainerClipper => MunitionFamily::ContainerMissile,
            MunitionKey::CM4D2DecoyContainerLineShip => MunitionFamily::ContainerMissile,
            MunitionKey::CM4MMineContainer => MunitionFamily::ContainerMissile,
            MunitionKey::CM4R12RocketContainer => MunitionFamily::ContainerMissile,
            MunitionKey::CM4R6RocketContainer => MunitionFamily::ContainerMissile,
            MunitionKey::EA12ChaffDecoy => MunitionFamily::StandardMissile,
            MunitionKey::EA20FlareDecoy => MunitionFamily::StandardMissile,
            MunitionKey::EA99ActiveDecoy => MunitionFamily::StandardMissile,
            MunitionKey::FlakRound => MunitionFamily::BallisticChemical50mmFlak,
            MunitionKey::M30MattockMine => MunitionFamily::LoiteringMine,
            MunitionKey::M30NMattockCooperativeMine => MunitionFamily::LoiteringMine,
            MunitionKey::M50AugerSprintMine => MunitionFamily::LoiteringMine,
            MunitionKey::R2PiranhaRocket => MunitionFamily::UnguidedRocket,
        }
    }

    /// The family of weapons this munition is fired from.
    pub fn family(self) -> (r: MunitionFamily)
        ensures
            r == self.spec_family(),
    {
        match self {
            MunitionKey::A15mmSandshot => MunitionFamily::BallisticMagnetic15mm,
            MunitionKey::A20mmSlug => MunitionFamily::BallisticChemical20mm,
            MunitionKey::A100mmAP => MunitionFamily::BallisticChemical100mm,
            MunitionKey::A100mmGrape => MunitionFamily::BallisticChemical100mm,
            MunitionKey::A100mmHE => MunitionFamily::BallisticChemical100mm,
            MunitionKey::A100mmHEHC => MunitionFamily::BallisticChemical100mm,
            MunitionKey::A120mmAP => MunitionFamily::BallisticChemical120mm,
            MunitionKey::A120mmHE => MunitionFamily::BallisticChemical120mm,
            MunitionKey::A120mmHERPF => MunitionFamily::BallisticChemical120mm,
            MunitionKey::A250mmAP => MunitionFamily::BallisticChemical250mm,
            MunitionKey::A250mmHE => MunitionFamily::BallisticChemical250mm,
            MunitionKey::A250mmHERPF => MunitionFamily::BallisticChemical250mm,
            MunitionKey::A300mmAPRailSabot => MunitionFamily::BallisticMagnetic300mmRailgun,
            MunitionKey::A400mmPlasmaAmpoule => MunitionFamily::BallisticMagnetic400mmPlasma,
            MunitionKey::A450mmAP => MunitionFamily::BallisticChemical450mm,
            MunitionKey::A450mmHE => MunitionFamily::BallisticChemical450mm,
            MunitionKey::A500mmFracturingBlock => MunitionFamily::BallisticMagnetic500mmMassDriver,
            MunitionKey::A600mmBomb => MunitionFamily::BallisticChemical600mm,
            MunitionKey::A600mmHESH => MunitionFamily::BallisticChemical600mm,
            MunitionKey::CM4D1DecoyContainerClipper => MunitionFamily::ContainerMissile,
            MunitionKey::CM4D2DecoyContainerLineShip => MunitionFamily::ContainerMissile,
            MunitionKey::CM4MMineContainer => MunitionFamily::ContainerMissile,
            MunitionKey::CM4R12RocketContainer => MunitionFamily::ContainerMissile,
            MunitionKey::CM4R6RocketContainer => MunitionFamily::ContainerMissile,
            MunitionKey::EA12ChaffDecoy => MunitionFamily::StandardMissile,
            MunitionKey::EA20FlareDecoy => MunitionFamily::StandardMissile,
            MunitionKey::EA99ActiveDecoy => MunitionFamily::StandardMissile,
            MunitionKey::FlakRound => MunitionFamily::BallisticChemical50mmFlak,
            MunitionKey::M30MattockMine => MunitionFamily::LoiteringMine,
            MunitionKey::M30NMattockCooperativeMine => MunitionFamily::LoiteringMine,
            MunitionKey::M50AugerSprintMine => MunitionFamily::LoiteringMine,
            MunitionKey::R2PiranhaRocket => MunitionFamily::UnguidedRocket,
        }
    }

    pub open spec fn spec_role(self) -> WeaponRole {
        match self {
            MunitionKey::A15mmSandshot => WeaponRole::Defensive,
            MunitionKey::A20mmSlug => WeaponRole::Defensive,
            MunitionKey::A100mmAP => WeaponRole::Offensive,
            MunitionKey::A100mmGrape => WeaponRole::DualPurpose,
            MunitionKey::A100mmHE => WeaponRole::Offensive,
            MunitionKey::A100mmHEHC => WeaponRole::Offensive,
            MunitionKey::A120mmAP => WeaponRole::Offensive,
            MunitionKey::A120mmHE => WeaponRole::Offensive,
            MunitionKey::A120mmHERPF => WeaponRole::DualPurpose,
            MunitionKey::A250mmAP => WeaponRole::Offensive,
            MunitionKey::A250mmHE => WeaponRole::Offensive,
            MunitionKey::A250mmHERPF => WeaponRole::DualPurpose,
            MunitionKey::A300mmAPRailSabot => WeaponRole::Offensive,
            MunitionKey::A400mmPlasmaAmpoule => WeaponRole::Offensive,
            MunitionKey::A450mmAP => WeaponRole::Offensive,
            MunitionKey::A450mmHE => WeaponRole::Offensive,
            MunitionKey::A500mmFracturingBlock => WeaponRole::Offensive,
            MunitionKey::A600mmBomb => WeaponRole::Offensive,
            MunitionKey::A600mmHESH => WeaponRole::Offensive,
            MunitionKey::CM4D1DecoyContainerClipper => WeaponRole::Utility,
            MunitionKey::CM4D2DecoyContainerLineShip => WeaponRole::Utility,
            MunitionKey::CM4MMineContainer => WeaponRole::Utility,
            MunitionKey::CM4R12RocketContainer => WeaponRole::Offensive,
            MunitionKey::CM4R6RocketContainer => WeaponRole::Offensive,
            MunitionKey::EA12ChaffDecoy => WeaponRole::Decoy,
            MunitionKey::EA20FlareDecoy => WeaponRole::Decoy,
            MunitionKey::EA99ActiveDecoy => WeaponRole::Decoy,
            MunitionKey::FlakRound => WeaponRole::Defensive,
            MunitionKey::M30MattockMine => WeaponRole::Utility,
            MunitionKey::M30NMattockCooperativeMine => WeaponRole::Utility,
            MunitionKey::M50AugerSprintMine => WeaponRole::Utility,
            MunitionKey::R2PiranhaRocket => WeaponRole::Offensive,
        }
    }

    /// What this munition is for.
    pub fn role(self) -> (r: WeaponRole)
        ensures
            r == self.spec_role(),
    {
        match self {
            MunitionKey::A15mmSandshot => WeaponRole::Defensive,
            MunitionKey::A20mmSlug => WeaponRole::Defensive,
            MunitionKey::A100mmAP => WeaponRole::Offensive,
            MunitionKey::A100mmGrape => WeaponRole::DualPurpose,
            MunitionKey::A100mmHE => WeaponRole::Offensive,
            MunitionKey::A100mmHEHC => WeaponRole::Offensive,
            MunitionKey::A120mmAP => WeaponRole::Offensive,
            MunitionKey::A120mmHE => WeaponRole::Offensive,
            MunitionKey::A120mmHERPF => WeaponRole::DualPurpose,
            MunitionKey::A250mmAP => WeaponRole::Offensive,
            MunitionKey::A250mmHE => WeaponRole::Offensive,
            MunitionKey::A250mmHERPF => WeaponRole::DualPurpose,
            MunitionKey::A300mmAPRailSabot => WeaponRole::Offensive,
            MunitionKey::A400mmPlasmaAmpoule => WeaponRole::Offensive,
            MunitionKey::A450mmAP => WeaponRole::Offensive,
            MunitionKey::A450mmHE => WeaponRole::Offensive,
            MunitionKey::A500mmFracturingBlock => WeaponRole::Offensive,
            MunitionKey::A600mmBomb => WeaponRole::Offensive,
            MunitionKey::A600mmHESH => WeaponRole::Offensive,
            MunitionKey::CM4D1DecoyContainerClipper => WeaponRole::Utility,
            MunitionKey::CM4D2DecoyContainerLineShip => WeaponRole::Utility,
            MunitionKey::CM4MMineContainer => WeaponRole::Utility,
            MunitionKey::CM4R12RocketContainer => WeaponRole::Offensive,
            MunitionKey::CM4R6RocketContainer => WeaponRole::Offensive,
            MunitionKey::EA12ChaffDecoy => WeaponRole::Decoy,
            MunitionKey::EA20FlareDecoy => WeaponRole::Decoy,
            MunitionKey::EA99ActiveDecoy => WeaponRole::Decoy,
            MunitionKey::FlakRound => WeaponRole::Defensive,
            MunitionKey::M30MattockMine => WeaponRole::Utility,
            MunitionKey::M30NMattockCooperativeMine => WeaponRole::Utility,
            MunitionKey::M50AugerSprintMine => WeaponRole::Utility,
            MunitionKey::R2PiranhaRocket => WeaponRole::Offensive,
        }
    }
}

impl MunitionFamily {
    /// The munitions of this family, in declaration order.
    pub open spec fn spec_keys(self) -> Seq<MunitionKey> {
        MunitionKey::spec_values().filter(|k: MunitionKey| k.spec_family() == self)
    }

    /// The munitions of this family, in declaration order.
    pub fn keys(self) -> (r: Vec<MunitionKey>)
        ensures
            r@ == self.spec_keys(),
    {
        let all = MunitionKey::values();
        let mut r: Vec<MunitionKey> = Vec::new();
        let mut i: usize = 0;
        while i < all.len()
            invariant
                all@ == MunitionKey::spec_values(),
                i <= all@.len(),
                r@ == all@.take(i as int).filter(|k: MunitionKey| k.spec_family() == self),
            decreases all.len() - i,
        {
            let k = all[i];
            proof {
                reveal_with_fuel(Seq::filter, 1);
                assert(all@.take(i as int + 1).drop_last() == all@.take(i as int));
            }
            if k.family() == self {
                r.push(k);
            }
            i = i + 1;
        }
        proof {
            assert(all@.take(all@.len() as int) == all@);
        }
        r
    }
}

impl MunitionKey {
    /// The longest range of this munition, in whole metres.
    pub open spec fn spec_max_range(self) -> usize {
        match self {
            MunitionKey::A15mmSandshot => 8000,
            MunitionKey::A20mmSlug => 1750,
            MunitionKey::A100mmAP => 7200,
            MunitionKey::A100mmGrape => 7997,
            MunitionKey::A100mmHE => 7200,
            MunitionKey::A100mmHEHC => 7200,
            MunitionKey::A120mmAP => 7200,
            MunitionKey::A120mmHE => 7200,
            MunitionKey::A120mmHERPF => 7200,
            MunitionKey::A250mmAP => 8000,
            MunitionKey::A250mmHE => 8000,
            MunitionKey::A250mmHERPF => 8000,
            MunitionKey::A300mmAPRailSabot => 21000,
            MunitionKey::A400mmPlasmaAmpoule => 8400,
            MunitionKey::A450mmAP => 11250,
            MunitionKey::A450mmHE => 11250,
            MunitionKey::A500mmFracturingBlock => 21000,
            MunitionKey::A600mmBomb => 9800,
            MunitionKey::A600mmHESH => 9800,
            MunitionKey::CM4D1DecoyContainerClipper => 21600,
            MunitionKey::CM4D2DecoyContainerLineShip => 15600,
            MunitionKey::CM4MMineContainer => 11900,
            MunitionKey::CM4R12RocketContainer => 17500,
            MunitionKey::CM4R6RocketContainer => 17500,
            MunitionKey::EA12ChaffDecoy => 70,
            MunitionKey::EA20FlareDecoy => 75,
            MunitionKey::EA99ActiveDecoy => 600,
            MunitionKey::FlakRound => 2002,
            MunitionKey::M30MattockMine => 3750,
            MunitionKey::M30NMattockCooperativeMine => 3750,
            MunitionKey::M50AugerSprintMine => 3850,
            MunitionKey::R2PiranhaRocket => 7000,
        }
    }

    /// The longest range of this munition, in whole metres.
    pub fn max_range(self) -> (r: usize)
        ensures
            r == self.spec_max_range(),
    {
        match self {
            MunitionKey::A15mmSandshot => 8000,
            MunitionKey::A20mmSlug => 1750,
            MunitionKey::A100mmAP => 7200,
            MunitionKey::A100mmGrape => 7997,
            MunitionKey::A100mmHE => 7200,
            MunitionKey::A100mmHEHC => 7200,
            MunitionKey::A120mmAP => 7200,
            MunitionKey::A120mmHE => 7200,
            MunitionKey::A120mmHERPF => 7200,
            MunitionKey::A250mmAP => 8000,
            MunitionKey::A250mmHE => 8000,
            MunitionKey::A250mmHERPF => 8000,
            MunitionKey::A300mmAPRailSabot => 21000,
            MunitionKey::A400mmPlasmaAmpoule => 8400,
            MunitionKey::A450mmAP => 11250,
            MunitionKey::A450mmHE => 11250,
            MunitionKey::A500mmFracturingBlock => 21000,
            MunitionKey::A600mmBomb => 9800,
            MunitionKey::A600mmHESH => 9800,
            MunitionKey::CM4D1DecoyContainerClipper => 21600,
            MunitionKey::CM4D2DecoyContainerLineShip => 15600,
            MunitionKey::CM4MMineContainer => 11900,
            MunitionKey::CM4R12RocketContainer => 17500,
            MunitionKey::CM4R6RocketContainer => 17500,
            MunitionKey::EA12ChaffDecoy => 70,
            MunitionKey::EA20FlareDecoy => 75,
            MunitionKey::EA99ActiveDecoy => 600,
            MunitionKey::FlakRound => 2002,
            MunitionKey::M30MattockMine => 3750,
            MunitionKey::M30NMattockCooperativeMine => 3750,
            MunitionKey::M50AugerSprintMine => 3850,
            MunitionKey::R2PiranhaRocket => 7000,
        }
    }
}

/// The longest of the ranges of the munitions `keys`, if there is any.
pub open spec fn spec_longest_range(keys: Seq<MunitionKey>) -> Option<usize>
    decreases keys.len(),
{
    if keys.len() == 0 {
        None
    } else {
        let r = keys.last().spec_max_range();
        match spec_longest_range(keys.drop_last()) {
            Some(m) => Some(if m < r { r } else { m }),
            None => Some(r),
        }
    }
}

impl MunitionFamily {
    /// The longest range among the munitions of this family, in whole
    /// metres; none for a family without munitions.
    pub open spec fn spec_max_range(self) -> Option<usize> {
        spec_longest_range(self.spec_keys())
    }

    /// The longest range among the munitions of this family, in whole
    /// metres; none for a family without munitions.
    pub fn max_range(self) -> (r: Option<usize>)
        ensures
            r == self.spec_max_range(),
    {
        let keys = self.keys();
        let mut longest: Option<usize> = None;
        let mut i: usize = 0;
        while i < keys.len()
            invariant
                i <= keys@.len(),
                keys@ == self.spec_keys(),
                longest == spec_longest_range(keys@.take(i as int)),
            decreases keys.len() - i,
        {
            proof {
                assert(keys@.take(i as int + 1).drop_last() == keys@.take(i as int));
            }
            let r = keys[i].max_range();
            longest = match longest {
                Some(m) => Some(if m < r { r } else { m }),
                None => Some(r),
            };
            i = i + 1;
        }
        proof {
            assert(keys@.take(i as int) == keys@);
        }
        longest
    }
}

} // verus!

pub mod tokens;
pub mod ship;

use vstd::prelude::*;
use crate::predicate::tokens::{Token, TokenView, Symbol, Ident, tokens_view};
use crate::model::{DistanceRealm, PointDefenseType, WeaponFamily, MissileEquipmentSummary};
use crate::data::MissileSize;
use crate::data::missiles::{Maneuvers, AuxiliaryKey, AvionicsKey, WarheadKey};
use crate::data::missiles::seekers::{SeekerKind, SeekerMode};
use crate::loadout::AvionicsConfigured;
use crate::data::components::SigType;
use crate::model::equipment::{ShipEquipmentSummary, sig_type_items, weapon_family_items, sig_type_set_contains, weapon_family_set_items};
use crate::text::str_eq;

verus! {

// Reading tokens.

/// Whether the token at `pos` is the symbol `sym`.
pub open spec fn is_symbol_at(ts: Seq<TokenView>, pos: int, sym: Symbol) -> bool {
    0 <= pos < ts.len() && ts[pos] == TokenView::Symbol(sym)
}

/// The word at `pos`, if the token there is one.
pub open spec fn ident_at(ts: Seq<TokenView>, pos: int) -> Option<Seq<char>> {
    if 0 <= pos < ts.len() {
        match ts[pos] {
            TokenView::Ident(c) => Some(c),
            TokenView::Symbol(_) => None,
        }
    } else {
        None
    }
}

/// The value that the word at `pos` names by `f`, and the position after it.
pub open spec fn spec_keyword_match<T>(ts: Seq<TokenView>, pos: int, f: spec_fn(Seq<char>) -> Option<T>) -> Option<(T, int)> {
    match ident_at(ts, pos) {
        Some(k) => match f(k) {
            Some(v) => Some((v, pos + 1)),
            None => None,
        },
        None => None,
    }
}

/// Whether the token at `pos` is the symbol `sym`.
pub(crate) fn symbol_is(tokens: &Vec<Token>, pos: usize, sym: Symbol) -> (r: bool)
    ensures
        r == is_symbol_at(tokens_view(tokens@), pos as int, sym),
        r ==> pos < tokens.len(),
{
    if pos < tokens.len() {
        match &tokens[pos] {
            Token::Symbol(s) => *s == sym,
            Token::Ident(_) => false,
        }
    } else {
        false
    }
}

/// The word at `pos`, if the token there is one.
pub(crate) fn ident_str(tokens: &Vec<Token>, pos: usize) -> (r: Option<&str>)
    ensures
        match ident_at(tokens_view(tokens@), pos as int) {
            Some(k) => r matches Some(s) && s@ == k,
            None => r is None,
        },
        r is Some ==> pos < tokens.len(),
{
    if pos < tokens.len() {
        match &tokens[pos] {
            Token::Ident(Ident { contents }) => Some(contents.as_str()),
            Token::Symbol(_) => None,
        }
    } else {
        None
    }
}

// The words that name values.

impl SeekerKind {
    /// The seeker kind a word names.
    pub open spec fn spec_from_keyword(k: Seq<char>) -> Option<SeekerKind> {
        if k == "command"@ {
            Some(SeekerKind::Command)
        } else if k == "active_radar"@ {
            Some(SeekerKind::ActiveRadar)
        } else if k == "semi_active_radar"@ {
            Some(SeekerKind::SemiActiveRadar)
        } else if k == "anti_radiation"@ {
            Some(SeekerKind::AntiRadiation)
        } else if k == "home_on_jam"@ {
            Some(SeekerKind::HomeOnJam)
        } else if k == "electro_optical"@ {
            Some(SeekerKind::ElectroOptical)
        } else if k == "wake_homing"@ {
            Some(SeekerKind::WakeHoming)
        } else {
            None
        }
    }

    /// Reads a seeker kind (`command`, `active_radar`, `semi_active_radar`,
    /// `anti_radiation`, `home_on_jam`, `electro_optical`, `wake_homing`) at
    /// `pos`; gives it and the position after it.
    pub fn parser(tokens: &Vec<Token>, pos: usize) -> (r: Option<(SeekerKind, usize)>)
        ensures
            match spec_keyword_match(tokens_view(tokens@), pos as int, |k: Seq<char>| Self::spec_from_keyword(k)) {
                Some((v, e)) => r matches Some((u, f)) && u == v && f == e,
                None => r is None,
            },
    {
        let k = match ident_str(tokens, pos) {
            Some(k) => k,
            None => return None,
        };
        let v = if str_eq(k, "command") {
            SeekerKind::Command
        } else if str_eq(k, "active_radar") {
            SeekerKind::ActiveRadar
        } else if str_eq(k, "semi_active_radar") {
            SeekerKind::SemiActiveRadar
        } else if str_eq(k, "anti_radiation") {
            SeekerKind::AntiRadiation
        } else if str_eq(k, "home_on_jam") {
            SeekerKind::HomeOnJam
        } else if str_eq(k, "electro_optical") {
            SeekerKind::ElectroOptical
        } else if str_eq(k, "wake_homing") {
            SeekerKind::WakeHoming
        } else {
            return None;
        };
        Some((v, pos + 1))
    }
}

impl SeekerMode {
    /// The seeker mode a word names.
    pub open spec fn spec_from_keyword(k: Seq<char>) -> Option<SeekerMode> {
        if k == "targeting"@ || k == "tgt"@ {
            Some(SeekerMode::Targeting)
        } else if k == "validation"@ || k == "val"@ {
            Some(SeekerMode::Validation)
        } else {
            None
        }
    }

    /// Reads a seeker mode (`targeting` or `tgt`, `validation` or `val`) at
    /// `pos`; gives it and the position after it.
    pub fn parser(tokens: &Vec<Token>, pos: usize) -> (r: Option<(SeekerMode, usize)>)
        ensures
            match spec_keyword_match(tokens_view(tokens@), pos as int, |k: Seq<char>| Self::spec_from_keyword(k)) {
                Some((v, e)) => r matches Some((u, f)) && u == v && f == e,
                None => r is None,
            },
    {
        let k = match ident_str(tokens, pos) {
            Some(k) => k,
            None => return None,
        };
        let v = if str_eq(k, "targeting") || str_eq(k, "tgt") {
            SeekerMode::Targeting
        } else if str_eq(k, "validation") || str_eq(k, "val") {
            SeekerMode::Validation
        } else {
            return None;
        };
        Some((v, pos + 1))
    }
}

impl AuxiliaryKey {
    /// The auxiliary component a word names.
    pub open spec fn spec_from_keyword(k: Seq<char>) -> Option<AuxiliaryKey> {
        if k == "cold_gas_bottle"@ {
            Some(AuxiliaryKey::ColdGasBottle)
        } else if k == "decoy_launcher"@ {
            Some(AuxiliaryKey::DecoyLauncher)
        } else if k == "cluster_decoy_launcher"@ {
            Some(AuxiliaryKey::ClusterDecoyLauncher)
        } else if k == "fast_startup_module"@ {
            Some(AuxiliaryKey::FastStartupModule)
        } else if k == "hardened_skin"@ {
            Some(AuxiliaryKey::HardenedSkin)
        } else if k == "radar_absorbent_coating"@ {
            Some(AuxiliaryKey::RadarAbsorbentCoating)
        } else if k == "self_screening_jammer"@ {
            Some(AuxiliaryKey::SelfScreeningJammer)
        } else if k == "boosted_self_screening_jammer"@ {
            Some(AuxiliaryKey::BoostedSelfScreeningJammer)
        } else {
            None
        }
    }

    /// Reads an auxiliary component (`cold_gas_bottle`, `decoy_launcher`,
    /// `cluster_decoy_launcher`, `fast_startup_module`, `hardened_skin`,
    /// `radar_absorbent_coating`, `self_screening_jammer`,
    /// `boosted_self_screening_jammer`) at `pos`; gives it and the position
    /// after it.
    pub fn parser(tokens: &Vec<Token>, pos: usize) -> (r: Option<(AuxiliaryKey, usize)>)
        ensures
            match spec_keyword_match(tokens_view(tokens@), pos as int, |k: Seq<char>| Self::spec_from_keyword(k)) {
                Some((v, e)) => r matches Some((u, f)) && u == v && f == e,
                None => r is None,
            },
    {
        let k = match ident_str(tokens, pos) {
            Some(k) => k,
            None => return None,
        };
        let v = if str_eq(k, "cold_gas_bottle") {
            AuxiliaryKey::ColdGasBottle
        } else if str_eq(k, "decoy_launcher") {
            AuxiliaryKey::DecoyLauncher
        } else if str_eq(k, "cluster_decoy_launcher") {
            AuxiliaryKey::ClusterDecoyLauncher
        } else if str_eq(k, "fast_startup_module") {
            AuxiliaryKey::FastStartupModule
        } else if str_eq(k, "hardened_skin") {
            AuxiliaryKey::HardenedSkin
        } else if str_eq(k, "radar_absorbent_coating") {
            AuxiliaryKey::RadarAbsorbentCoating
        } else if str_eq(k, "self_screening_jammer") {
            AuxiliaryKey::SelfScreeningJammer
        } else if str_eq(k, "boosted_self_screening_jammer") {
            AuxiliaryKey::BoostedSelfScreeningJammer
        } else {
            return None;
        };
        Some((v, pos + 1))
    }
}

impl AvionicsKey {
    /// The guidance package a word names.
    pub open spec fn spec_from_keyword(k: Seq<char>) -> Option<AvionicsKey> {
        if k == "direct_guidance"@ {
            Some(AvionicsKey::DirectGuidance)
        } else if k == "cruise_guidance"@ {
            Some(AvionicsKey::CruiseGuidance)
        } else {
            None
        }
    }

    /// Reads a guidance package (`direct_guidance`, `cruise_guidance`) at
    /// `pos`; gives it and the position after it.
    pub fn parser(tokens: &Vec<Token>, pos: usize) -> (r: Option<(AvionicsKey, usize)>)
        ensures
            match spec_keyword_match(tokens_view(tokens@), pos as int, |k: Seq<char>| Self::spec_from_keyword(k)) {
                Some((v, e)) => r matches Some((u, f)) && u == v && f == e,
                None => r is None,
            },
    {
        let k = match ident_str(tokens, pos) {
            Some(k) => k,
            None => return None,
        };
        let v = if str_eq(k, "direct_guidance") {
            AvionicsKey::DirectGuidance
        } else if str_eq(k, "cruise_guidance") {
            AvionicsKey::CruiseGuidance
        } else {
            return None;
        };
        Some((v, pos + 1))
    }
}

impl WarheadKey {
    /// The warhead a word names.
    pub open spec fn spec_from_keyword(k: Seq<char>) -> Option<WarheadKey> {
        if k == "he_impact"@ {
            Some(WarheadKey::HEImpact)
        } else if k == "he_kinetic_penetrator"@ {
            Some(WarheadKey::HEKineticPenetrator)
        } else if k == "blast_fragmentation"@ {
            Some(WarheadKey::BlastFragmentation)
        } else if k == "blast_fragmentation_el"@ {
            Some(WarheadKey::BlastFragmentationEL)
        } else {
            None
        }
    }

    /// Reads a warhead (`he_impact`, `he_kinetic_penetrator`,
    /// `blast_fragmentation`, `blast_fragmentation_el`) at `pos`; gives it
    /// and the position after it.
    pub fn parser(tokens: &Vec<Token>, pos: usize) -> (r: Option<(WarheadKey, usize)>)
        ensures
            match spec_keyword_match(tokens_view(tokens@), pos as int, |k: Seq<char>| Self::spec_from_keyword(k)) {
                Some((v, e)) => r matches Some((u, f)) && u == v && f == e,
                None => r is None,
            },
    {
        let k = match ident_str(tokens, pos) {
            Some(k) => k,
            None => return None,
        };
        let v = if str_eq(k, "he_impact") {
            WarheadKey::HEImpact
        } else if str_eq(k, "he_kinetic_penetrator") {
            WarheadKey::HEKineticPenetrator
        } else if str_eq(k, "blast_fragmentation") {
            WarheadKey::BlastFragmentation
        } else if str_eq(k, "blast_fragmentation_el") {
            WarheadKey::BlastFragmentationEL
        } else {
            return None;
        };
        Some((v, pos + 1))
    }
}

impl Maneuvers {
    /// The maneuvers a word names.
    pub open spec fn spec_from_keyword(k: Seq<char>) -> Option<Maneuvers> {
        if k == "none"@ {
            Some(Maneuvers::NoManeuvers)
        } else if k == "weave"@ {
            Some(Maneuvers::Weave)
        } else if k == "corkscrew"@ {
            Some(Maneuvers::Corkscrew)
        } else {
            None
        }
    }

    /// Reads maneuvers (`none`, `weave`, `corkscrew`) at `pos`; gives them
    /// and the position after them.
    pub fn parser(tokens: &Vec<Token>, pos: usize) -> (r: Option<(Maneuvers, usize)>)
        ensures
            match spec_keyword_match(tokens_view(tokens@), pos as int, |k: Seq<char>| Self::spec_from_keyword(k)) {
                Some((v, e)) => r matches Some((u, f)) && u == v && f == e,
                None => r is None,
            },
    {
        let k = match ident_str(tokens, pos) {
            Some(k) => k,
            None => return None,
        };
        let v = if str_eq(k, "none") {
            Maneuvers::NoManeuvers
        } else if str_eq(k, "weave") {
            Maneuvers::Weave
        } else if str_eq(k, "corkscrew") {
            Maneuvers::Corkscrew
        } else {
            return None;
        };
        Some((v, pos + 1))
    }
}

// Words read by `FromStr`.

/// The distance realm the word at `pos` names, and the position after it.
pub open spec fn spec_parse_realm(ts: Seq<TokenView>, pos: int) -> Option<(DistanceRealm, int)> {
    match ident_at(ts, pos) {
        Some(k) => match DistanceRealm::spec_from_str(k) {
            Ok(v) => Some((v, pos + 1)),
            Err(_) => None,
        },
        None => None,
    }
}

/// Reads a distance realm at `pos` (see [`DistanceRealm::from_str`]).
fn parse_realm(tokens: &Vec<Token>, pos: usize) -> (r: Option<(DistanceRealm, usize)>)
    ensures
        match spec_parse_realm(tokens_view(tokens@), pos as int) {
            Some((v, e)) => r matches Some((u, f)) && u == v && f == e,
            None => r is None,
        },
        r matches Some((_, f)) ==> f <= tokens.len(),
{
    let k = match ident_str(tokens, pos) {
        Some(k) => k,
        None => return None,
    };
    match DistanceRealm::from_str(k) {
        Ok(v) => Some((v, pos + 1)),
        Err(_) => None,
    }
}

// Predicates on a value.

/// A test of a value: within an inclusive range, one of a list, or one value.
#[derive(Debug, Clone, PartialEq, Eq)]
pub enum MultiPredicate<T> {
    InRange(T, T),
    AnyOf(Vec<T>),
    Only(T),
}

/// A [`MultiPredicate`] as plain values.
pub enum MultiPredicateView<T> {
    InRange(T, T),
    AnyOf(Seq<T>),
    Only(T),
}

impl<T> View for MultiPredicate<T> {
    type V = MultiPredicateView<T>;

    open spec fn view(&self) -> MultiPredicateView<T> {
        match self {
            MultiPredicate::InRange(a, b) => MultiPredicateView::InRange(*a, *b),
            MultiPredicate::AnyOf(v) => MultiPredicateView::AnyOf(v@),
            MultiPredicate::Only(a) => MultiPredicateView::Only(*a),
        }
    }
}

/// The realms after the first of a bracketed list from `pos` on: each after a
/// comma; a comma that no realm follows ends the list and is taken.
pub open spec fn spec_parse_realm_items(ts: Seq<TokenView>, pos: int) -> (Seq<DistanceRealm>, int)
    decreases ts.len() - pos,
{
    if is_symbol_at(ts, pos, Symbol::Comma) {
        match spec_parse_realm(ts, pos + 1) {
            Some((x, e)) => {
                let (rest, end) = spec_parse_realm_items(ts, e);
                (seq![x] + rest, end)
            },
            None => (Seq::empty(), pos + 1),
        }
    } else {
        (Seq::empty(), pos)
    }
}

/// A bracketed, comma-separated list of at least one realm at `pos`
/// (`[near, far]`, a trailing comma allowed), and the position after it.
pub open spec fn spec_parse_realm_list(ts: Seq<TokenView>, pos: int) -> Option<(Seq<DistanceRealm>, int)> {
    if is_symbol_at(ts, pos, Symbol::SquareBracketOpen) {
        match spec_parse_realm(ts, pos + 1) {
            Some((x, e)) => {
                let (rest, end) = spec_parse_realm_items(ts, e);
                if is_symbol_at(ts, end, Symbol::SquareBracketClose) {
                    Some((seq![x] + rest, end + 1))
                } else {
                    None
                }
            },
            None => None,
        }
    } else {
        None
    }
}

/// A test of realms at `pos`, and the position after it: `a..b` for the
/// range from `a` to `b`, else a bracketed list for any of its realms, else
/// one realm.
pub open spec fn spec_parse_multi_realm(ts: Seq<TokenView>, pos: int) -> Option<(MultiPredicateView<DistanceRealm>, int)> {
    match spec_parse_realm(ts, pos) {
        Some((a, e)) => if is_symbol_at(ts, e, Symbol::Ellipsis) && spec_parse_realm(ts, e + 1) is Some {
            let (b, f) = spec_parse_realm(ts, e + 1)->Some_0;
            Some((MultiPredicateView::InRange(a, b), f))
        } else {
            Some((MultiPredicateView::Only(a), e))
        },
        None => match spec_parse_realm_list(ts, pos) {
            Some((xs, e)) => Some((MultiPredicateView::AnyOf(xs), e)),
            None => None,
        },
    }
}

/// Reads the realms after the first of a bracketed list.
fn parse_realm_items(tokens: &Vec<Token>, pos: usize, out: &mut Vec<DistanceRealm>) -> (end: usize)
    requires
        pos <= tokens.len(),
    ensures
        final(out)@ == old(out)@ + spec_parse_realm_items(tokens_view(tokens@), pos as int).0,
        end == spec_parse_realm_items(tokens_view(tokens@), pos as int).1,
        end <= tokens.len(),
    decreases tokens.len() - pos,
{
    if symbol_is(tokens, pos, Symbol::Comma) {
        match parse_realm(tokens, pos + 1) {
            Some((x, e)) => {
                let ghost before = out@;
                out.push(x);
                let end = parse_realm_items(tokens, e, out);
                proof {
                    let (rest, _) = spec_parse_realm_items(tokens_view(tokens@), e as int);
                    assert(before.push(x) + rest == before + (seq![x] + rest));
                }
                end
            },
            None => {
                proof {
                    assert(old(out)@ + Seq::<DistanceRealm>::empty() == old(out)@);
                }
                pos + 1
            },
        }
    } else {
        proof {
            assert(old(out)@ + Seq::<DistanceRealm>::empty() == old(out)@);
        }
        pos
    }
}

impl MultiPredicate<DistanceRealm> {
    /// Reads a test of realms at `pos` (see [`spec_parse_multi_realm`]), and
    /// gives the position after it.
    pub fn parser(tokens: &Vec<Token>, pos: usize) -> (r: Option<(MultiPredicate<DistanceRealm>, usize)>)
        ensures
            match spec_parse_multi_realm(tokens_view(tokens@), pos as int) {
                Some((v, e)) => r matches Some((u, f)) && u@ == v && f == e,
                None => r is None,
            },
    {
        match parse_realm(tokens, pos) {
            Some((a, e)) => {
                if symbol_is(tokens, e, Symbol::Ellipsis) {
                    if let Some((b, f)) = parse_realm(tokens, e + 1) {
                        return Some((MultiPredicate::InRange(a, b), f));
                    }
                }
                Some((MultiPredicate::Only(a), e))
            },
            None => {
                if !symbol_is(tokens, pos, Symbol::SquareBracketOpen) {
                    return None;
                }
                let (x, e) = match parse_realm(tokens, pos + 1) {
                    Some(p) => p,
                    None => return None,
                };
                let mut list: Vec<DistanceRealm> = Vec::new();
                list.push(x);
                let end = parse_realm_items(tokens, e, &mut list);
                if symbol_is(tokens, end, Symbol::SquareBracketClose) {
                    Some((MultiPredicate::AnyOf(list), end + 1))
                } else {
                    None
                }
            },
        }
    }

    /// Whether `value` passes: lies in the range (bounds included), is one
    /// of the list, or is the one value.
    pub open spec fn spec_contains(self, value: DistanceRealm) -> bool {
        match self {
            MultiPredicate::InRange(a, b) => a as int <= value as int && value as int <= b as int,
            MultiPredicate::AnyOf(v) => v@.contains(value),
            MultiPredicate::Only(a) => a == value,
        }
    }

    /// Whether `value` passes this test.
    pub fn contains(&self, value: &DistanceRealm) -> (r: bool)
        ensures
            r == self.spec_contains(*value),
    {
        match self {
            MultiPredicate::InRange(a, b) => realm_rank(*a) <= realm_rank(*value) && realm_rank(*value) <= realm_rank(*b),
            MultiPredicate::AnyOf(v) => {
                let mut i: usize = 0;
                while i < v.len()
                    invariant
                        i <= v@.len(),
                        self.spec_contains(*value) == v@.contains(*value),
                        forall|j: int| 0 <= j < i ==> v@[j] != *value,
                    decreases v.len() - i,
                {
                    if v[i] == *value {
                        proof {
                            assert(v@[i as int] == *value);
                            assert(v@.contains(*value));
                        }
                        return true;
                    }
                    i = i + 1;
                }
                false
            },
            MultiPredicate::Only(a) => *a == *value,
        }
    }
}

/// The place of a realm in the order near, middle, far.
fn realm_rank(r: DistanceRealm) -> (n: u8)
    ensures
        n == r as int,
{
    match r {
        DistanceRealm::Near => 0,
        DistanceRealm::Middle => 1,
        DistanceRealm::Far => 2,
    }
}

// Predicates on a weapon family.

/// A test of a weapon family, with an optional test of what the family
/// carries (its range, point defense kind or missile size).
#[derive(Debug, Clone, PartialEq, Eq)]
pub enum WeaponFamilyPredicate {
    EnergyBeam(Option<MultiPredicate<DistanceRealm>>),
    EnergyPlasma(Option<MultiPredicate<DistanceRealm>>),
    EnergyRailgun(Option<MultiPredicate<DistanceRealm>>),
    Ballistic(Option<MultiPredicate<DistanceRealm>>),
    PointDefense(Option<PointDefenseType>),
    StandardMissile(Option<MissileSize>),
    ContainerMissile,
    LoiteringMine,
    UnguidedRocket,
}

/// A [`WeaponFamilyPredicate`] as plain values.
pub enum WeaponFamilyPredicateView {
    EnergyBeam(Option<MultiPredicateView<DistanceRealm>>),
    EnergyPlasma(Option<MultiPredicateView<DistanceRealm>>),
    EnergyRailgun(Option<MultiPredicateView<DistanceRealm>>),
    Ballistic(Option<MultiPredicateView<DistanceRealm>>),
    PointDefense(Option<PointDefenseType>),
    StandardMissile(Option<MissileSize>),
    ContainerMissile,
    LoiteringMine,
    UnguidedRocket,
}

/// An optional test of realms as plain values.
pub open spec fn realm_test_view(p: Option<MultiPredicate<DistanceRealm>>) -> Option<MultiPredicateView<DistanceRealm>> {
    match p {
        Some(m) => Some(m@),
        None => None,
    }
}

impl View for WeaponFamilyPredicate {
    type V = WeaponFamilyPredicateView;

    open spec fn view(&self) -> WeaponFamilyPredicateView {
        match self {
            WeaponFamilyPredicate::EnergyBeam(p) => WeaponFamilyPredicateView::EnergyBeam(realm_test_view(*p)),
            WeaponFamilyPredicate::EnergyPlasma(p) => WeaponFamilyPredicateView::EnergyPlasma(realm_test_view(*p)),
            WeaponFamilyPredicate::EnergyRailgun(p) => WeaponFamilyPredicateView::EnergyRailgun(realm_test_view(*p)),
            WeaponFamilyPredicate::Ballistic(p) => WeaponFamilyPredicateView::Ballistic(realm_test_view(*p)),
            WeaponFamilyPredicate::PointDefense(p) => WeaponFamilyPredicateView::PointDefense(*p),
            WeaponFamilyPredicate::StandardMissile(p) => WeaponFamilyPredicateView::StandardMissile(*p),
            WeaponFamilyPredicate::ContainerMissile => WeaponFamilyPredicateView::ContainerMissile,
            WeaponFamilyPredicate::LoiteringMine => WeaponFamilyPredicateView::LoiteringMine,
            WeaponFamilyPredicate::UnguidedRocket => WeaponFamilyPredicateView::UnguidedRocket,
        }
    }
}

/// `/` and a test of realms at `pos`, if both are there; else nothing, and
/// `pos` again.
pub open spec fn spec_parse_opt_realm_test(ts: Seq<TokenView>, pos: int) -> (Option<MultiPredicateView<DistanceRealm>>, int) {
    if is_symbol_at(ts, pos, Symbol::Slash) {
        match spec_parse_multi_realm(ts, pos + 1) {
            Some((m, e)) => (Some(m), e),
            None => (None, pos),
        }
    } else {
        (None, pos)
    }
}

/// `/` and a point defense kind at `pos`, if both are there; else nothing,
/// and `pos` again.
pub open spec fn spec_parse_opt_point_defense(ts: Seq<TokenView>, pos: int) -> (Option<PointDefenseType>, int) {
    if is_symbol_at(ts, pos, Symbol::Slash) && ident_at(ts, pos + 1) is Some
        && PointDefenseType::spec_from_str(ident_at(ts, pos + 1)->Some_0) is Ok {
        (Some(PointDefenseType::spec_from_str(ident_at(ts, pos + 1)->Some_0)->Ok_0), pos + 2)
    } else {
        (None, pos)
    }
}

/// `/` and a missile size at `pos`, if both are there; else nothing, and
/// `pos` again.
pub open spec fn spec_parse_opt_missile_size(ts: Seq<TokenView>, pos: int) -> (Option<MissileSize>, int) {
    if is_symbol_at(ts, pos, Symbol::Slash) && ident_at(ts, pos + 1) is Some
        && MissileSize::spec_from_str(ident_at(ts, pos + 1)->Some_0) is Ok {
        (Some(MissileSize::spec_from_str(ident_at(ts, pos + 1)->Some_0)->Ok_0), pos + 2)
    } else {
        (None, pos)
    }
}

/// A test of a weapon family at `pos`, and the position after it: its name
/// (`energy_beam`, `energy_plasma`, `energy_rail_gun`, `ballistic`,
/// `point_defense`, `standard_missile`, `container_missile`,
/// `loitering_mine`, `unguided_rocket`), then, where the family carries a
/// value, optionally `/` and a test of it.
pub open spec fn spec_parse_weapon_family_predicate(ts: Seq<TokenView>, pos: int) -> Option<(WeaponFamilyPredicateView, int)> {
    match ident_at(ts, pos) {
        Some(k) => if k == "energy_beam"@ {
            let (o, e) = spec_parse_opt_realm_test(ts, pos + 1);
            Some((WeaponFamilyPredicateView::EnergyBeam(o), e))
        } else if k == "energy_plasma"@ {
            let (o, e) = spec_parse_opt_realm_test(ts, pos + 1);
            Some((WeaponFamilyPredicateView::EnergyPlasma(o), e))
        } else if k == "energy_rail_gun"@ {
            let (o, e) = spec_parse_opt_realm_test(ts, pos + 1);
            Some((WeaponFamilyPredicateView::EnergyRailgun(o), e))
        } else if k == "ballistic"@ {
            let (o, e) = spec_parse_opt_realm_test(ts, pos + 1);
            Some((WeaponFamilyPredicateView::Ballistic(o), e))
        } else if k == "point_defense"@ {
            let (o, e) = spec_parse_opt_point_defense(ts, pos + 1);
            Some((WeaponFamilyPredicateView::PointDefense(o), e))
        } else if k == "standard_missile"@ {
            let (o, e) = spec_parse_opt_missile_size(ts, pos + 1);
            Some((WeaponFamilyPredicateView::StandardMissile(o), e))
        } else if k == "container_missile"@ {
            Some((WeaponFamilyPredicateView::ContainerMissile, pos + 1))
        } else if k == "loitering_mine"@ {
            Some((WeaponFamilyPredicateView::LoiteringMine, pos + 1))
        } else if k == "unguided_rocket"@ {
            Some((WeaponFamilyPredicateView::UnguidedRocket, pos + 1))
        } else {
            None
        },
        None => None,
    }
}

/// Reads `/` and a test of realms, if both are there.
fn parse_opt_realm_test(tokens: &Vec<Token>, pos: usize) -> (r: (Option<MultiPredicate<DistanceRealm>>, usize))
    ensures
        realm_test_view(r.0) == spec_parse_opt_realm_test(tokens_view(tokens@), pos as int).0,
        r.1 == spec_parse_opt_realm_test(tokens_view(tokens@), pos as int).1,
{
    if symbol_is(tokens, pos, Symbol::Slash) {
        match MultiPredicate::<DistanceRealm>::parser(tokens, pos + 1) {
            Some((m, e)) => (Some(m), e),
            None => (None, pos),
        }
    } else {
        (None, pos)
    }
}

/// Reads `/` and a point defense kind, if both are there.
fn parse_opt_point_defense(tokens: &Vec<Token>, pos: usize) -> (r: (Option<PointDefenseType>, usize))
    ensures
        r.0 == spec_parse_opt_point_defense(tokens_view(tokens@), pos as int).0,
        r.1 == spec_parse_opt_point_defense(tokens_view(tokens@), pos as int).1,
{
    if symbol_is(tokens, pos, Symbol::Slash) {
        if let Some(k) = ident_str(tokens, pos + 1) {
            if let Ok(t) = PointDefenseType::from_str(k) {
                return (Some(t), pos + 2);
            }
        }
    }
    (None, pos)
}

/// Reads `/` and a missile size, if both are there.
fn parse_opt_missile_size(tokens: &Vec<Token>, pos: usize) -> (r: (Option<MissileSize>, usize))
    ensures
        r.0 == spec_parse_opt_missile_size(tokens_view(tokens@), pos as int).0,
        r.1 == spec_parse_opt_missile_size(tokens_view(tokens@), pos as int).1,
{
    if symbol_is(tokens, pos, Symbol::Slash) {
        if let Some(k) = ident_str(tokens, pos + 1) {
            if let Ok(t) = MissileSize::from_str(k) {
                return (Some(t), pos + 2);
            }
        }
    }
    (None, pos)
}

impl WeaponFamilyPredicate {
    /// Reads a test of a weapon family at `pos` (see
    /// [`spec_parse_weapon_family_predicate`]), and gives the position after
    /// it.
    pub fn parser(tokens: &Vec<Token>, pos: usize) -> (r: Option<(WeaponFamilyPredicate, usize)>)
        ensures
            match spec_parse_weapon_family_predicate(tokens_view(tokens@), pos as int) {
                Some((v, e)) => r matches Some((u, f)) && u@ == v && f == e,
                None => r is None,
            },
    {
        let k = match ident_str(tokens, pos) {
            Some(k) => k,
            None => return None,
        };
        if str_eq(k, "energy_beam") {
            let (o, e) = parse_opt_realm_test(tokens, pos + 1);
            Some((WeaponFamilyPredicate::EnergyBeam(o), e))
        } else if str_eq(k, "energy_plasma") {
            let (o, e) = parse_opt_realm_test(tokens, pos + 1);
            Some((WeaponFamilyPredicate::EnergyPlasma(o), e))
        } else if str_eq(k, "energy_rail_gun") {
            let (o, e) = parse_opt_realm_test(tokens, pos + 1);
            Some((WeaponFamilyPredicate::EnergyRailgun(o), e))
        } else if str_eq(k, "ballistic") {
            let (o, e) = parse_opt_realm_test(tokens, pos + 1);
            Some((WeaponFamilyPredicate::Ballistic(o), e))
        } else if str_eq(k, "point_defense") {
            let (o, e) = parse_opt_point_defense(tokens, pos + 1);
            Some((WeaponFamilyPredicate::PointDefense(o), e))
        } else if str_eq(k, "standard_missile") {
            let (o, e) = parse_opt_missile_size(tokens, pos + 1);
            Some((WeaponFamilyPredicate::StandardMissile(o), e))
        } else if str_eq(k, "container_missile") {
            Some((WeaponFamilyPredicate::ContainerMissile, pos + 1))
        } else if str_eq(k, "loitering_mine") {
            Some((WeaponFamilyPredicate::LoiteringMine, pos + 1))
        } else if str_eq(k, "unguided_rocket") {
            Some((WeaponFamilyPredicate::UnguidedRocket, pos + 1))
        } else {
            None
        }
    }

    /// Whether `family` passes: it is the family named, and what it carries
    /// passes the optional test.
    pub open spec fn spec_test(self, family: WeaponFamily) -> bool {
        match (self, family) {
            (WeaponFamilyPredicate::EnergyBeam(p), WeaponFamily::EnergyBeam(d)) => p is None || p->Some_0.spec_contains(d),
            (WeaponFamilyPredicate::EnergyPlasma(p), WeaponFamily::EnergyPlasma(d)) => p is None || p->Some_0.spec_contains(d),
            (WeaponFamilyPredicate::EnergyRailgun(p), WeaponFamily::EnergyRailgun(d)) => p is None || p->Some_0.spec_contains(d),
            (WeaponFamilyPredicate::Ballistic(p), WeaponFamily::Ballistic(d)) => p is None || p->Some_0.spec_contains(d),
            (WeaponFamilyPredicate::PointDefense(p), WeaponFamily::PointDefense(t)) => p is None || p == Some(t),
            (WeaponFamilyPredicate::StandardMissile(p), WeaponFamily::StandardMissile(s)) => p is None || p == Some(s),
            (WeaponFamilyPredicate::ContainerMissile, WeaponFamily::ContainerMissile) => true,
            (WeaponFamilyPredicate::LoiteringMine, WeaponFamily::LoiteringMine) => true,
            (WeaponFamilyPredicate::UnguidedRocket, WeaponFamily::UnguidedRocket) => true,
            _ => false,
        }
    }

    /// Whether `family` passes this test.
    pub fn test(&self, family: &WeaponFamily) -> (r: bool)
        ensures
            r == self.spec_test(*family),
    {
        match (self, family) {
            (WeaponFamilyPredicate::EnergyBeam(p), WeaponFamily::EnergyBeam(d))
            | (WeaponFamilyPredicate::EnergyPlasma(p), WeaponFamily::EnergyPlasma(d))
            | (WeaponFamilyPredicate::EnergyRailgun(p), WeaponFamily::EnergyRailgun(d))
            | (WeaponFamilyPredicate::Ballistic(p), WeaponFamily::Ballistic(d)) => match p {
                Some(m) => m.contains(d),
                None => true,
            },
            (WeaponFamilyPredicate::PointDefense(p), WeaponFamily::PointDefense(t)) => match p {
                Some(u) => *u == *t,
                None => true,
            },
            (WeaponFamilyPredicate::StandardMissile(p), WeaponFamily::StandardMissile(s)) => match p {
                Some(u) => *u == *s,
                None => true,
            },
            (WeaponFamilyPredicate::ContainerMissile, WeaponFamily::ContainerMissile) => true,
            (WeaponFamilyPredicate::LoiteringMine, WeaponFamily::LoiteringMine) => true,
            (WeaponFamilyPredicate::UnguidedRocket, WeaponFamily::UnguidedRocket) => true,
            _ => false,
        }
    }
}

// Predicates on a guidance package's settings.

/// A test of a guidance package's settings.
#[derive(Debug, PartialEq, Eq)]
pub enum AvionicsPredicate {
    Any(Vec<AvionicsPredicate>),
    All(Vec<AvionicsPredicate>),
    Not(Box<AvionicsPredicate>),
    HotLaunch,
    SelfDestructOnLost,
    Maneuvers(Maneuvers),
    DefensiveDoctrine,
}

/// An [`AvionicsPredicate`] as plain values.
pub enum AvionicsPredicateView {
    Any(Seq<AvionicsPredicateView>),
    All(Seq<AvionicsPredicateView>),
    Not(Box<AvionicsPredicateView>),
    HotLaunch,
    SelfDestructOnLost,
    Maneuvers(Maneuvers),
    DefensiveDoctrine,
}

/// The tests `s` as plain values.
pub open spec fn avionics_views(s: Seq<AvionicsPredicate>) -> Seq<AvionicsPredicateView>
    decreases s,
{
    if s.len() == 0 {
        Seq::empty()
    } else {
        avionics_views(s.drop_last()).push(s.last().view_of())
    }
}

impl AvionicsPredicate {
    /// This test as plain values.
    pub open spec fn view_of(self) -> AvionicsPredicateView
        decreases self,
    {
        match self {
            AvionicsPredicate::Any(v) => AvionicsPredicateView::Any(avionics_views(v@)),
            AvionicsPredicate::All(v) => AvionicsPredicateView::All(avionics_views(v@)),
            AvionicsPredicate::Not(p) => AvionicsPredicateView::Not(Box::new((*p).view_of())),
            AvionicsPredicate::HotLaunch => AvionicsPredicateView::HotLaunch,
            AvionicsPredicate::SelfDestructOnLost => AvionicsPredicateView::SelfDestructOnLost,
            AvionicsPredicate::Maneuvers(m) => AvionicsPredicateView::Maneuvers(m),
            AvionicsPredicate::DefensiveDoctrine => AvionicsPredicateView::DefensiveDoctrine,
        }
    }
}

impl View for AvionicsPredicate {
    type V = AvionicsPredicateView;

    open spec fn view(&self) -> AvionicsPredicateView {
        self.view_of()
    }
}

/// A test of a guidance package's settings at `pos`, and the position after
/// it: `any(..)` or `all(..)` of a list of tests, `not(..)` of one test,
/// `hot_launch`, `self_destruct_on_lost`, `maneuvers/` and maneuvers, or
/// `defensive_doctrine`.
pub open spec fn spec_parse_avionics(ts: Seq<TokenView>, pos: int) -> Option<(AvionicsPredicateView, int)>
    decreases ts.len() - pos, 1int,
{
    match ident_at(ts, pos) {
        Some(k) => if k == "any"@ {
            match spec_parse_avionics_list(ts, pos + 1) {
                Some((l, e)) => Some((AvionicsPredicateView::Any(l), e)),
                None => None,
            }
        } else if k == "all"@ {
            match spec_parse_avionics_list(ts, pos + 1) {
                Some((l, e)) => Some((AvionicsPredicateView::All(l), e)),
                None => None,
            }
        } else if k == "not"@ {
            if is_symbol_at(ts, pos + 1, Symbol::RoundBracketOpen) {
                match spec_parse_avionics(ts, pos + 2) {
                    Some((p, e)) => if is_symbol_at(ts, e, Symbol::RoundBracketClose) {
                        Some((AvionicsPredicateView::Not(Box::new(p)), e + 1))
                    } else {
                        None
                    },
                    None => None,
                }
            } else {
                None
            }
        } else if k == "hot_launch"@ {
            Some((AvionicsPredicateView::HotLaunch, pos + 1))
        } else if k == "self_destruct_on_lost"@ {
            Some((AvionicsPredicateView::SelfDestructOnLost, pos + 1))
        } else if k == "maneuvers"@ {
            if is_symbol_at(ts, pos + 1, Symbol::Slash) {
                match spec_keyword_match(ts, pos + 2, |w: Seq<char>| Maneuvers::spec_from_keyword(w)) {
                    Some((m, e)) => Some((AvionicsPredicateView::Maneuvers(m), e)),
                    None => None,
                }
            } else {
                None
            }
        } else if k == "defensive_doctrine"@ {
            Some((AvionicsPredicateView::DefensiveDoctrine, pos + 1))
        } else {
            None
        },
        None => None,
    }
}

/// A bracketed, comma-separated list of at least one test at `pos` (a
/// trailing comma allowed), and the position after it.
pub open spec fn spec_parse_avionics_list(ts: Seq<TokenView>, pos: int) -> Option<(Seq<AvionicsPredicateView>, int)>
    decreases ts.len() - pos, 0int,
{
    if is_symbol_at(ts, pos, Symbol::RoundBracketOpen) {
        match spec_parse_avionics(ts, pos + 1) {
            Some((x, e)) => if pos < e <= ts.len() {
                match spec_parse_avionics_items(ts, e) {
                    Some((rest, end)) => if is_symbol_at(ts, end, Symbol::RoundBracketClose) {
                        Some((seq![x] + rest, end + 1))
                    } else {
                        None
                    },
                    None => None,
                }
            } else {
                None
            },
            None => None,
        }
    } else {
        None
    }
}

/// The tests after the first of a list from `pos` on: each after a comma; a
/// comma that no test follows ends the list and is taken. (A test always
/// takes a token at least and never reads past the end, as
/// [`lemma_avionics_parse_advances`] shows, so the test of where it ended
/// only makes the recursion visibly end.)
pub open spec fn spec_parse_avionics_items(ts: Seq<TokenView>, pos: int) -> Option<(Seq<AvionicsPredicateView>, int)>
    decreases ts.len() - pos, 0int,
{
    if is_symbol_at(ts, pos, Symbol::Comma) {
        match spec_parse_avionics(ts, pos + 1) {
            Some((x, e)) => if pos < e <= ts.len() {
                match spec_parse_avionics_items(ts, e) {
                    Some((rest, end)) => Some((seq![x] + rest, end)),
                    None => None,
                }
            } else {
                None
            },
            None => Some((Seq::empty(), pos + 1)),
        }
    } else {
        Some((Seq::empty(), pos))
    }
}

/// The tests `s` as plain values, one for one.
pub proof fn lemma_avionics_views(s: Seq<AvionicsPredicate>)
    ensures
        avionics_views(s).len() == s.len(),
        forall|i: int| 0 <= i < s.len() ==> #[trigger] avionics_views(s)[i] == s[i].view_of(),
    decreases s.len(),
{
    if s.len() > 0 {
        lemma_avionics_views(s.drop_last());
    }
}

/// Reads a bracketed list of tests.
fn parse_avionics_list(tokens: &Vec<Token>, pos: usize) -> (r: Option<(Vec<AvionicsPredicate>, usize)>)
    ensures
        match spec_parse_avionics_list(tokens_view(tokens@), pos as int) {
            Some((l, e)) => r matches Some((v, f)) && avionics_views(v@) == l && f == e,
            None => r is None,
        },
    decreases tokens.len() - pos, 0int,
{
    if !symbol_is(tokens, pos, Symbol::RoundBracketOpen) {
        return None;
    }
    let (x, e) = match AvionicsPredicate::parser(tokens, pos + 1) {
        Some(p) => p,
        None => return None,
    };
    if !(pos < e && e <= tokens.len()) {
        return None;
    }
    let (mut rest, end) = match parse_avionics_items(tokens, e) {
        Some(p) => p,
        None => return None,
    };
    if !symbol_is(tokens, end, Symbol::RoundBracketClose) {
        return None;
    }
    let mut v: Vec<AvionicsPredicate> = Vec::new();
    v.push(x);
    let ghost first = v@;
    let ghost tail = rest@;
    v.append(&mut rest);
    proof {
        lemma_avionics_views(v@);
        lemma_avionics_views(tail);
        let (l, _) = spec_parse_avionics_items(tokens_view(tokens@), e as int)->Some_0;
        assert(avionics_views(v@) =~= seq![v@[0].view_of()] + l);
    }
    Some((v, end + 1))
}

/// Reads the tests after the first of a list.
fn parse_avionics_items(tokens: &Vec<Token>, pos: usize) -> (r: Option<(Vec<AvionicsPredicate>, usize)>)
    ensures
        match spec_parse_avionics_items(tokens_view(tokens@), pos as int) {
            Some((l, e)) => r matches Some((v, f)) && avionics_views(v@) == l && f == e,
            None => r is None,
        },
    decreases tokens.len() - pos, 0int,
{
    if !symbol_is(tokens, pos, Symbol::Comma) {
        proof {
            assert(avionics_views(Seq::<AvionicsPredicate>::empty()) == Seq::<AvionicsPredicateView>::empty());
        }
        return Some((Vec::new(), pos));
    }
    let (x, e) = match AvionicsPredicate::parser(tokens, pos + 1) {
        Some(p) => p,
        None => {
            proof {
                assert(avionics_views(Seq::<AvionicsPredicate>::empty()) == Seq::<AvionicsPredicateView>::empty());
            }
            return Some((Vec::new(), pos + 1));
        },
    };
    if !(pos < e && e <= tokens.len()) {
        return None;
    }
    let (mut rest, end) = match parse_avionics_items(tokens, e) {
        Some(p) => p,
        None => return None,
    };
    let mut v: Vec<AvionicsPredicate> = Vec::new();
    v.push(x);
    let ghost tail = rest@;
    v.append(&mut rest);
    proof {
        lemma_avionics_views(v@);
        lemma_avionics_views(tail);
        let (l, _) = spec_parse_avionics_items(tokens_view(tokens@), e as int)->Some_0;
        assert(avionics_views(v@) =~= seq![v@[0].view_of()] + l);
    }
    Some((v, end))
}

impl AvionicsPredicate {
    /// Reads a test of a guidance package's settings at `pos` (see
    /// [`spec_parse_avionics`]), and gives the position after it.
    pub fn parser(tokens: &Vec<Token>, pos: usize) -> (r: Option<(AvionicsPredicate, usize)>)
        ensures
            match spec_parse_avionics(tokens_view(tokens@), pos as int) {
                Some((v, e)) => r matches Some((u, f)) && u@ == v && f == e,
                None => r is None,
            },
        decreases tokens.len() - pos, 1int,
    {
        let k = match ident_str(tokens, pos) {
            Some(k) => k,
            None => return None,
        };
        if str_eq(k, "any") {
            match parse_avionics_list(tokens, pos + 1) {
                Some((l, e)) => Some((AvionicsPredicate::Any(l), e)),
                None => None,
            }
        } else if str_eq(k, "all") {
            match parse_avionics_list(tokens, pos + 1) {
                Some((l, e)) => Some((AvionicsPredicate::All(l), e)),
                None => None,
            }
        } else if str_eq(k, "not") {
            if symbol_is(tokens, pos + 1, Symbol::RoundBracketOpen) {
                match AvionicsPredicate::parser(tokens, pos + 2) {
                    Some((p, e)) => if symbol_is(tokens, e, Symbol::RoundBracketClose) {
                        Some((AvionicsPredicate::Not(Box::new(p)), e + 1))
                    } else {
                        None
                    },
                    None => None,
                }
            } else {
                None
            }
        } else if str_eq(k, "hot_launch") {
            Some((AvionicsPredicate::HotLaunch, pos + 1))
        } else if str_eq(k, "self_destruct_on_lost") {
            Some((AvionicsPredicate::SelfDestructOnLost, pos + 1))
        } else if str_eq(k, "maneuvers") {
            if symbol_is(tokens, pos + 1, Symbol::Slash) {
                match Maneuvers::parser(tokens, pos + 2) {
                    Some((m, e)) => Some((AvionicsPredicate::Maneuvers(m), e)),
                    None => None,
                }
            } else {
                None
            }
        } else if str_eq(k, "defensive_doctrine") {
            Some((AvionicsPredicate::DefensiveDoctrine, pos + 1))
        } else {
            None
        }
    }
}

/// Whether the settings `a` pass the test `p`: any or all of a list, the
/// opposite of one test, hot launch, self-destruct on a lost target, the
/// given maneuvers, or a defensive doctrine being set.
pub open spec fn spec_avionics_test(p: AvionicsPredicateView, a: AvionicsConfigured) -> bool
    decreases p, 1int,
{
    match p {
        AvionicsPredicateView::Any(l) => spec_avionics_test_any(l, a),
        AvionicsPredicateView::All(l) => spec_avionics_test_all(l, a),
        AvionicsPredicateView::Not(q) => !spec_avionics_test(*q, a),
        AvionicsPredicateView::HotLaunch => a.spec_hot_launch(),
        AvionicsPredicateView::SelfDestructOnLost => a.spec_self_destruct_on_lost(),
        AvionicsPredicateView::Maneuvers(m) => a.spec_maneuvers() == m,
        AvionicsPredicateView::DefensiveDoctrine => a.spec_defensive_doctrine() is Some,
    }
}

/// Whether the settings `a` pass some test of `l`.
pub open spec fn spec_avionics_test_any(l: Seq<AvionicsPredicateView>, a: AvionicsConfigured) -> bool
    decreases l, 0int,
{
    if l.len() == 0 {
        false
    } else {
        spec_avionics_test_any(l.drop_last(), a) || spec_avionics_test(l.last(), a)
    }
}

/// Whether the settings `a` pass every test of `l`.
pub open spec fn spec_avionics_test_all(l: Seq<AvionicsPredicateView>, a: AvionicsConfigured) -> bool
    decreases l, 0int,
{
    if l.len() == 0 {
        true
    } else {
        spec_avionics_test_all(l.drop_last(), a) && spec_avionics_test(l.last(), a)
    }
}

impl AvionicsPredicate {
    /// Whether the settings `a` pass this test (see [`spec_avionics_test`]).
    pub fn test(&self, a: AvionicsConfigured) -> (r: bool)
        ensures
            r == spec_avionics_test(self@, a),
        decreases self,
    {
        match self {
            AvionicsPredicate::Any(v) => {
                proof {
                    lemma_avionics_views(v@);
                }
                let mut found = false;
                let mut i: usize = 0;
                while i < v.len()
                    invariant
                        i <= v@.len(),
                        *self == AvionicsPredicate::Any(*v),
                        self@ == AvionicsPredicateView::Any(avionics_views(v@)),
                        avionics_views(v@).len() == v@.len(),
                        forall|j: int| 0 <= j < v@.len() ==> #[trigger] avionics_views(v@)[j] == v@[j].view_of(),
                        found == spec_avionics_test_any(avionics_views(v@).take(i as int), a),
                    decreases v.len() - i,
                {
                    proof {
                        assert(decreases_to!(*self => *v));
                        assert(decreases_to!(*v => v[i as int]));
                        let l = avionics_views(v@);
                        assert(l.take(i + 1).drop_last() == l.take(i as int));
                        assert(l.take(i + 1).last() == l[i as int]);
                    }
                    let t = v[i].test(a);
                    found = found || t;
                    i = i + 1;
                }
                proof {
                    assert(avionics_views(v@).take(i as int) == avionics_views(v@));
                }
                found
            },
            AvionicsPredicate::All(v) => {
                proof {
                    lemma_avionics_views(v@);
                }
                let mut all = true;
                let mut i: usize = 0;
                while i < v.len()
                    invariant
                        i <= v@.len(),
                        *self == AvionicsPredicate::All(*v),
                        self@ == AvionicsPredicateView::All(avionics_views(v@)),
                        avionics_views(v@).len() == v@.len(),
                        forall|j: int| 0 <= j < v@.len() ==> #[trigger] avionics_views(v@)[j] == v@[j].view_of(),
                        all == spec_avionics_test_all(avionics_views(v@).take(i as int), a),
                    decreases v.len() - i,
                {
                    proof {
                        assert(decreases_to!(*self => *v));
                        assert(decreases_to!(*v => v[i as int]));
                        let l = avionics_views(v@);
                        assert(l.take(i + 1).drop_last() == l.take(i as int));
                        assert(l.take(i + 1).last() == l[i as int]);
                    }
                    let t = v[i].test(a);
                    all = all && t;
                    i = i + 1;
                }
                proof {
                    assert(avionics_views(v@).take(i as int) == avionics_views(v@));
                }
                all
            },
            AvionicsPredicate::Not(q) => !q.test(a),
            AvionicsPredicate::HotLaunch => a.hot_launch(),
            AvionicsPredicate::SelfDestructOnLost => a.self_destruct_on_lost(),
            AvionicsPredicate::Maneuvers(m) => a.maneuvers() == *m,
            AvionicsPredicate::DefensiveDoctrine => a.defensive_doctrine().is_some(),
        }
    }
}

// Predicates on what a missile is made of.

/// A test of what a missile is made of: a seeker in a mode, an auxiliary
/// component, a guidance package (with an optional test of its settings), or
/// a warhead.
#[derive(Debug, PartialEq, Eq)]
pub enum MissileEquipmentPredicate {
    Seeker(SeekerKind, SeekerMode),
    Auxiliary(AuxiliaryKey),
    Avionics(AvionicsKey, Option<AvionicsPredicate>),
    Warhead(WarheadKey),
}

impl MissileEquipmentPredicate {
    /// Whether the missile `summary` passes: it has the seeker in that mode,
    /// has the auxiliary component, has that guidance package and its
    /// settings pass the optional test, or carries the warhead.
    pub open spec fn spec_test(self, summary: MissileEquipmentSummary) -> bool {
        match self {
            MissileEquipmentPredicate::Seeker(kind, mode) => summary.seekers.spec_items().contains((kind, mode)),
            MissileEquipmentPredicate::Auxiliary(key) => summary.auxiliary_components@.contains(key),
            MissileEquipmentPredicate::Avionics(key, p) => summary.avionics.spec_into_avionics_key() == key
                && match p {
                    Some(q) => spec_avionics_test(q@, summary.avionics),
                    None => true,
                },
            MissileEquipmentPredicate::Warhead(key) => summary.warhead == Some(key),
        }
    }

    /// Whether the missile `summary` passes this test.
    pub fn test(&self, summary: &MissileEquipmentSummary) -> (r: bool)
        ensures
            r == self.spec_test(*summary),
    {
        match self {
            MissileEquipmentPredicate::Seeker(kind, mode) => {
                let items = summary.seekers.iter();
                let mut i: usize = 0;
                while i < items.len()
                    invariant
                        i <= items@.len(),
                        items@ == summary.seekers.spec_items(),
                        self.spec_test(*summary) == items@.contains((*kind, *mode)),
                        forall|j: int| 0 <= j < i ==> items@[j] != (*kind, *mode),
                    decreases items.len() - i,
                {
                    let (k, m) = items[i];
                    if k == *kind && m == *mode {
                        proof {
                            assert(items@[i as int] == (*kind, *mode));
                            assert(items@.contains((*kind, *mode)));
                        }
                        return true;
                    }
                    i = i + 1;
                }
                false
            },
            MissileEquipmentPredicate::Auxiliary(key) => {
                let list = &summary.auxiliary_components;
                let mut i: usize = 0;
                while i < list.len()
                    invariant
                        i <= list@.len(),
                        self.spec_test(*summary) == list@.contains(*key),
                        forall|j: int| 0 <= j < i ==> list@[j] != *key,
                    decreases list.len() - i,
                {
                    if list[i] == *key {
                        proof {
                            assert(list@[i as int] == *key);
                            assert(list@.contains(*key));
                        }
                        return true;
                    }
                    i = i + 1;
                }
                false
            },
            MissileEquipmentPredicate::Avionics(key, p) => {
                summary.avionics.into_avionics_key() == *key && match p {
                    Some(q) => q.test(summary.avionics),
                    None => true,
                }
            },
            MissileEquipmentPredicate::Warhead(key) => match summary.warhead {
                Some(w) => w == *key,
                None => false,
            },
        }
    }
}

} // verus!

verus! {

/// A test of settings that reads takes one token at least and ends within
/// the tokens; so do its lists.
pub proof fn lemma_avionics_parse_advances(ts: Seq<TokenView>, pos: int)
    ensures
        spec_parse_avionics(ts, pos) matches Some((_, e)) ==> pos < e <= ts.len(),
        spec_parse_avionics_list(ts, pos) matches Some((_, e)) ==> pos < e <= ts.len(),
        0 <= pos <= ts.len() ==> (spec_parse_avionics_items(ts, pos) matches Some((_, e)) ==> pos <= e <= ts.len()),
    decreases ts.len() - pos,
{
    if 0 <= pos < ts.len() {
        lemma_avionics_parse_advances(ts, pos + 1);
        if pos + 2 <= ts.len() {
            lemma_avionics_parse_advances(ts, pos + 2);
        }
        if let Some((_, e)) = spec_parse_avionics(ts, pos + 1) {
            lemma_avionics_parse_advances(ts, e);
        }
    }
}

} // verus!

verus! {

// Predicates on what a ship carries.

/// A test of what a ship carries: intelligence, an illuminator, a deception
/// module, missile identification, a fire control, sensor or jammer (of a
/// given signature type, or of any), or a weapon of a family that passes a
/// test.
#[derive(Debug, Clone, PartialEq, Eq)]
pub enum ShipEquipmentPredicate {
    Intelligence,
    Illuminator,
    DeceptionModule,
    MissileIdentification,
    FireControl(Option<SigType>),
    Sensor(Option<SigType>),
    Jammer(Option<SigType>),
    Weapon(WeaponFamilyPredicate),
}

impl ShipEquipmentPredicate {
    /// Whether the ship `summary` passes this test.
    pub open spec fn spec_test(self, summary: ShipEquipmentSummary) -> bool {
        match self {
            ShipEquipmentPredicate::Intelligence => summary.has_intelligence,
            ShipEquipmentPredicate::Illuminator => summary.has_illuminator,
            ShipEquipmentPredicate::DeceptionModule => summary.has_deception_module,
            ShipEquipmentPredicate::MissileIdentification => summary.has_missile_identification,
            ShipEquipmentPredicate::FireControl(t) => t is None || sig_type_items(summary.fire_control).contains(t->Some_0),
            ShipEquipmentPredicate::Sensor(t) => t is None || sig_type_items(summary.sensors).contains(t->Some_0),
            ShipEquipmentPredicate::Jammer(t) => t is None || sig_type_items(summary.jamming).contains(t->Some_0),
            ShipEquipmentPredicate::Weapon(p) => exists|i: int| 0 <= i < weapon_family_items(summary.weapons).len()
                && p.spec_test(#[trigger] weapon_family_items(summary.weapons)[i]),
        }
    }

    /// Whether the ship `summary` passes this test.
    pub fn test(&self, summary: &ShipEquipmentSummary) -> (r: bool)
        ensures
            r == self.spec_test(*summary),
    {
        match self {
            ShipEquipmentPredicate::Intelligence => summary.has_intelligence,
            ShipEquipmentPredicate::Illuminator => summary.has_illuminator,
            ShipEquipmentPredicate::DeceptionModule => summary.has_deception_module,
            ShipEquipmentPredicate::MissileIdentification => summary.has_missile_identification,
            ShipEquipmentPredicate::FireControl(t) => match t {
                Some(t) => sig_type_set_contains(&summary.fire_control, *t),
                None => true,
            },
            ShipEquipmentPredicate::Sensor(t) => match t {
                Some(t) => sig_type_set_contains(&summary.sensors, *t),
                None => true,
            },
            ShipEquipmentPredicate::Jammer(t) => match t {
                Some(t) => sig_type_set_contains(&summary.jamming, *t),
                None => true,
            },
            ShipEquipmentPredicate::Weapon(p) => {
                let families = weapon_family_set_items(&summary.weapons);
                let mut i: usize = 0;
                while i < families.len()
                    invariant
                        i <= families@.len(),
                        families@ == weapon_family_items(summary.weapons),
                        self.spec_test(*summary) == exists|j: int| 0 <= j < families@.len() && p.spec_test(#[trigger] families@[j]),
                        forall|j: int| 0 <= j < i ==> !p.spec_test(#[trigger] families@[j]),
                    decreases families.len() - i,
                {
                    if p.test(&families[i]) {
                        return true;
                    }
                    i = i + 1;
                }
                false
            },
        }
    }
}

} // verus!

verus! {

/// Whether the realm `a` reaches no farther than `b`: near, then middle,
/// then far.
pub open spec fn realm_at_most(a: DistanceRealm, b: DistanceRealm) -> bool {
    a == b || a == DistanceRealm::Near || b == DistanceRealm::Far
}

/// A range of realms holds every realm from its first to its last bound,
/// those between included; a list holds its members; a single realm holds
/// itself.
pub proof fn lemma_realm_test_contains(p: MultiPredicate<DistanceRealm>, v: DistanceRealm)
    ensures
        p matches MultiPredicate::InRange(a, b) ==> (p.spec_contains(v) <==> realm_at_most(a, v) && realm_at_most(v, b)),
        p matches MultiPredicate::AnyOf(l) ==> (p.spec_contains(v) <==> l@.contains(v)),
        p matches MultiPredicate::Only(a) ==> (p.spec_contains(v) <==> a == v),
{
    match p {
        MultiPredicate::InRange(a, b) => {
            match (a, v, b) {
                _ => {
                    assert(a as int == 0 <==> a == DistanceRealm::Near);
                    assert(b as int == 2 <==> b == DistanceRealm::Far);
                },
            }
        },
        _ => {},
    }
}

} // verus!

verus! {

/// Settings pass `any` of a list of tests exactly when they pass some test
/// of it, and `all` of it exactly when they pass every one.
pub proof fn lemma_avionics_test_lists(l: Seq<AvionicsPredicateView>, a: AvionicsConfigured)
    ensures
        spec_avionics_test_any(l, a) <==> exists|i: int| 0 <= i < l.len() && #[trigger] spec_avionics_test(l[i], a),
        spec_avionics_test_all(l, a) <==> forall|i: int| 0 <= i < l.len() ==> #[trigger] spec_avionics_test(l[i], a),
    decreases l.len(),
{
    if l.len() > 0 {
        let d = l.drop_last();
        lemma_avionics_test_lists(d, a);
        assert forall|i: int| 0 <= i < d.len() implies d[i] == l[i] by {}
        if spec_avionics_test_any(l, a) {
            if spec_avionics_test_any(d, a) {
                let i = choose|i: int| 0 <= i < d.len() && #[trigger] spec_avionics_test(d[i], a);
                assert(spec_avionics_test(l[i], a));
            } else {
                assert(spec_avionics_test(l[l.len() - 1], a));
            }
        }
        if exists|i: int| 0 <= i < l.len() && #[trigger] spec_avionics_test(l[i], a) {
            let i = choose|i: int| 0 <= i < l.len() && #[trigger] spec_avionics_test(l[i], a);
            if i < l.len() - 1 {
                assert(spec_avionics_test(d[i], a));
            }
        }
        if forall|i: int| 0 <= i < l.len() ==> #[trigger] spec_avionics_test(l[i], a) {
            assert forall|i: int| 0 <= i < d.len() implies #[trigger] spec_avionics_test(d[i], a) by {
                assert(spec_avionics_test(l[i], a));
            }
            assert(spec_avionics_test(l[l.len() - 1], a));
        }
    }
}

/// What each test of a guidance package's settings asks: the opposite of a
/// test fails where it passes; hot launch, self-destruct on a lost target
/// and a defensive doctrine must be set; the maneuvers must be those named.
pub proof fn lemma_avionics_test_kinds(p: AvionicsPredicateView, a: AvionicsConfigured)
    ensures
        p matches AvionicsPredicateView::Not(q) ==> (spec_avionics_test(p, a) <==> !spec_avionics_test(*q, a)),
        p is HotLaunch ==> (spec_avionics_test(p, a) <==> match a {
            AvionicsConfigured::DirectGuidance { hot_launch, .. } => hot_launch,
            AvionicsConfigured::CruiseGuidance { hot_launch, .. } => hot_launch,
        }),
        p is SelfDestructOnLost ==> (spec_avionics_test(p, a) <==> match a {
            AvionicsConfigured::DirectGuidance { self_destruct_on_lost, .. } => self_destruct_on_lost,
            AvionicsConfigured::CruiseGuidance { self_destruct_on_lost, .. } => self_destruct_on_lost,
        }),
        p matches AvionicsPredicateView::Maneuvers(m) ==> (spec_avionics_test(p, a) <==> match a {
            AvionicsConfigured::DirectGuidance { maneuvers, .. } => maneuvers == m,
            AvionicsConfigured::CruiseGuidance { maneuvers, .. } => maneuvers == m,
        }),
        p is DefensiveDoctrine ==> (spec_avionics_test(p, a) <==> match a {
            AvionicsConfigured::DirectGuidance { defensive_doctrine, .. } => defensive_doctrine is Some,
            AvionicsConfigured::CruiseGuidance { defensive_doctrine, .. } => defensive_doctrine is Some,
        }),
{
}

/// What each test of a missile's equipment asks: one of its seekers is of
/// that kind in that mode; it carries the auxiliary component; its guidance
/// package is the one named and its settings pass the optional test; its
/// warhead is the one named.
pub proof fn lemma_missile_equipment_test_kinds(p: MissileEquipmentPredicate, s: MissileEquipmentSummary)
    ensures
        p matches MissileEquipmentPredicate::Seeker(k, m) ==> (p.spec_test(s) <==> exists|i: int|
            0 <= i < s.seekers.spec_items().len() && #[trigger] s.seekers.spec_items()[i] == (k, m)),
        p matches MissileEquipmentPredicate::Auxiliary(k) ==> (p.spec_test(s) <==> exists|i: int|
            0 <= i < s.auxiliary_components@.len() && #[trigger] s.auxiliary_components@[i] == k),
        p matches MissileEquipmentPredicate::Avionics(k, None) ==> (p.spec_test(s) <==> s.avionics.spec_into_avionics_key() == k),
        p matches MissileEquipmentPredicate::Warhead(k) ==> (p.spec_test(s) <==> s.warhead == Some(k)),
{
}

} // verus!

use vstd::prelude::*;
use crate::data::Faction;
use crate::data::hulls::HullKey;
use crate::data::components::{spec_tiling_quantity, tiling_quantity, MissileLauncherCells};
use crate::data::components::info::{ComponentInfo, ComponentVariantInfo};
use crate::utils::Size;

verus! {

impl ComponentInfo {
    /// Whether `faction` may use this component at all: a component of a
    /// faction is for that faction alone, one of no faction for both.
    pub open spec fn spec_is_usable_by(self, faction: Faction) -> bool {
        match self.faction {
            Some(f) => f == faction,
            None => true,
        }
    }

    /// Whether `faction` may use this component at all.
    pub fn is_usable_by(self, faction: Faction) -> (r: bool)
        ensures
            r == self.spec_is_usable_by(faction),
    {
        match self.faction {
            Some(Faction::Alliance) => faction == Faction::Alliance,
            Some(Faction::Protectorate) => faction == Faction::Protectorate,
            None => true,
        }
    }

    /// Whether this component may be fitted on `hull`: any component on the
    /// Ocello command cruiser, else those the hull's faction may use.
    pub open spec fn spec_is_usable_on(self, hull: HullKey) -> bool {
        hull == HullKey::OcelloCommandCruiser || self.spec_is_usable_by(hull.spec_faction())
    }

    /// Whether this component may be fitted on `hull`.
    pub fn is_usable_on(self, hull: HullKey) -> (r: bool)
        ensures
            r == self.spec_is_usable_on(hull),
    {
        match hull {
            HullKey::OcelloCommandCruiser => true,
            _ => self.is_usable_by(hull.faction()),
        }
    }

    /// Whether this component tiles: berthings and magazines do (missile
    /// launchers that tile are not counted here).
    pub open spec fn spec_can_tile(self) -> bool {
        self.variant matches Some(ComponentVariantInfo::Berthing)
            || self.variant matches Some(ComponentVariantInfo::Magazine { .. })
    }

    /// Whether this component tiles.
    pub fn can_tile(self) -> (r: bool)
        ensures
            r == self.spec_can_tile(),
    {
        match self.variant {
            Some(ComponentVariantInfo::Berthing) => true,
            Some(ComponentVariantInfo::Magazine { .. }) => true,
            _ => false,
        }
    }

    /// Whether this component fits a socket of `socket_size` along every
    /// axis.
    pub open spec fn spec_can_fit_in(self, socket_size: Size) -> bool {
        socket_size.x >= self.size.x && socket_size.y >= self.size.y && socket_size.z >= self.size.z
    }

    /// Whether this component fits a socket of `socket_size`.
    pub fn can_fit_in(self, socket_size: Size) -> (r: bool)
        ensures
            r == self.spec_can_fit_in(socket_size),
    {
        crate::data::components::can_fit_in(socket_size, self.size)
    }

    /// How many of this component a socket of `socket_size` holds: for a
    /// tiling component, the number of whole copies that fit; for any other,
    /// 1 when it fits and 0 when it does not.
    pub open spec fn spec_tiling_quantity(self, socket_size: Size) -> int {
        if self.spec_can_tile() {
            spec_tiling_quantity(socket_size, self.size)
        } else if self.spec_can_fit_in(socket_size) {
            1
        } else {
            0
        }
    }

    /// How many of this component a socket of `socket_size` holds; see
    /// [`ComponentInfo::spec_tiling_quantity`].
    pub fn tiling_quantity(self, socket_size: Size) -> (r: usize)
        requires
            self.size.x > 0 && self.size.y > 0 && self.size.z > 0,
            (socket_size.x / self.size.x) * (socket_size.y / self.size.y) <= usize::MAX,
            spec_tiling_quantity(socket_size, self.size) <= usize::MAX,
        ensures
            r == self.spec_tiling_quantity(socket_size),
    {
        if self.can_tile() {
            tiling_quantity(socket_size, self.size)
        } else if self.can_fit_in(socket_size) {
            1
        } else {
            0
        }
    }

    /// The crew this component gives (positive) or needs (negative) in a
    /// socket of `socket_size`: a berthing's crew for each copy that fits,
    /// any other component's crew as it is.
    pub open spec fn spec_crew(self, socket_size: Size) -> int {
        if self.variant matches Some(ComponentVariantInfo::Berthing) {
            self.crew * spec_tiling_quantity(socket_size, self.size)
        } else {
            self.crew as int
        }
    }

    /// The crew this component gives or needs in a socket of `socket_size`.
    pub fn crew(self, socket_size: Size) -> (r: isize)
        requires
            self.size.x > 0 && self.size.y > 0 && self.size.z > 0,
            (socket_size.x / self.size.x) * (socket_size.y / self.size.y) <= usize::MAX,
            spec_tiling_quantity(socket_size, self.size) <= isize::MAX,
            isize::MIN <= self.spec_crew(socket_size) <= isize::MAX,
        ensures
            r == self.spec_crew(socket_size),
    {
        match self.variant {
            Some(ComponentVariantInfo::Berthing) => {
                let n = tiling_quantity(socket_size, self.size) as isize;
                self.crew * n
            },
            _ => self.crew,
        }
    }

    /// How much of a socket of `socket_size` this component leaves unused,
    /// in tiles, or none when it does not fit: what the whole copies of a
    /// tiling component (or of a launcher whose cells tile) leave over; 0 for
    /// a launcher whose cells the socket size sets, when the socket takes
    /// it (none when it does not); for any other component, the volume of the
    /// difference of the two sizes.
    pub open spec fn spec_undersize_volume_within(self, socket_size: Size) -> Option<int> {
        if !self.spec_can_fit_in(socket_size) {
            None
        } else {
            let tiling = socket_size.spec_volume() - spec_tiling_quantity(socket_size, self.size) * self.size.spec_volume();
            let nominal = (Size {
                x: (socket_size.x - self.size.x) as usize,
                y: (socket_size.y - self.size.y) as usize,
                z: (socket_size.z - self.size.z) as usize,
            }).spec_volume();
            match self.variant {
                Some(ComponentVariantInfo::Berthing) => Some(tiling),
                Some(ComponentVariantInfo::Magazine { .. }) => Some(tiling),
                Some(ComponentVariantInfo::WeaponMissileBank { cells, .. }) => match cells {
                    MissileLauncherCells::Constant { .. } => Some(nominal),
                    MissileLauncherCells::Tiling { .. } => Some(tiling),
                    MissileLauncherCells::Function { groups, .. } =>
                        if groups.spec_groups(socket_size) is Some { Some(0) } else { None },
                },
                _ => Some(nominal),
            }
        }
    }

    /// How much of a socket of `socket_size` this component leaves unused;
    /// see [`ComponentInfo::spec_undersize_volume_within`].
    pub fn undersize_volume_within(self, socket_size: Size) -> (r: Option<usize>)
        requires
            self.size.x > 0 && self.size.y > 0 && self.size.z > 0,
            socket_size.x * socket_size.y <= usize::MAX,
            socket_size.spec_volume() <= usize::MAX,
        ensures
            match self.spec_undersize_volume_within(socket_size) {
                Some(v) => r == Some(v as usize),
                None => r is None,
            },
    {
        if !self.can_fit_in(socket_size) {
            return None;
        }
        let s = socket_size;
        let c = self.size;
        let q = s.div(c);
        proof {
            assert(q.x * c.x <= s.x && q.y * c.y <= s.y && q.z * c.z <= s.z) by (nonlinear_arith)
                requires q.x == s.x / c.x, q.y == s.y / c.y, q.z == s.z / c.z, c.x > 0, c.y > 0, c.z > 0;
            lemma_mul_le3(q.x * c.x, q.y * c.y, q.z * c.z, s.x as int, s.y as int, s.z as int);
            lemma_mul_le3((s.x - c.x) as int, (s.y - c.y) as int, (s.z - c.z) as int, s.x as int, s.y as int, s.z as int);
        }
        let tiled = q.mul(c);
        let whole = s.volume();
        let tiled_volume = tiled.volume();
        proof {
            assert(tiled.spec_volume() == (q.x * q.y * q.z) * (c.x * c.y * c.z)) by (nonlinear_arith)
                requires tiled.x == q.x * c.x, tiled.y == q.y * c.y, tiled.z == q.z * c.z;
        }
        let tiling_undersize = whole - tiled_volume;
        let nominal_undersize = s.sub(c).volume();
        match self.variant {
            Some(ComponentVariantInfo::Berthing) => Some(tiling_undersize),
            Some(ComponentVariantInfo::Magazine { .. }) => Some(tiling_undersize),
            Some(ComponentVariantInfo::WeaponMissileBank { cells, .. }) => match cells {
                MissileLauncherCells::Constant { .. } => Some(nominal_undersize),
                MissileLauncherCells::Tiling { .. } => Some(tiling_undersize),
                MissileLauncherCells::Function { groups, .. } => match groups.groups(socket_size) {
                    Some(_) => Some(0),
                    None => None,
                },
            },
            _ => Some(nominal_undersize),
        }
    }
}

/// Products of three smaller factors are smaller.
proof fn lemma_mul_le3(a: int, b: int, c: int, x: int, y: int, z: int)
    requires
        0 <= a <= x,
        0 <= b <= y,
        0 <= c <= z,
    ensures
        a * b <= x * y,
        a * b * c <= x * y * z,
{
    assert(a * b <= x * y) by (nonlinear_arith)
        requires 0 <= a <= x, 0 <= b <= y;
    assert(a * b * c <= x * y * z) by (nonlinear_arith)
        requires 0 <= a * b <= x * y, 0 <= c <= z, 0 <= a, 0 <= b;
}

} // verus!

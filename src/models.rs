use vstd::prelude::*;

verus! {

/// The drag families that a point-mass solver can be asked to use.
#[derive(Clone, Copy, Debug, PartialEq, Eq, Structural)]
pub enum ModelKind {
    /// No aerodynamic drag (debugging and tests).
    NoDrag,
    /// G1 reference projectile (flat-base spitzer).
    G1,
    /// G7 reference projectile (boat-tail spitzer).
    G7,
}

/// `c` is the letter `upper` or its lower-case form `lower`.
pub open spec fn is_either(c: char, upper: char, lower: char) -> bool {
    c == upper || c == lower
}

/// The drag family that a model name selects: "G1" or "G7" in either case,
/// and no drag for every other name.
pub open spec fn kind_of_name(s: Seq<char>) -> ModelKind {
    if s.len() == 2 && is_either(s[0], 'G', 'g') && s[1] == '1' {
        ModelKind::G1
    } else if s.len() == 2 && is_either(s[0], 'G', 'g') && s[1] == '7' {
        ModelKind::G7
    } else {
        ModelKind::NoDrag
    }
}

impl ModelKind {
    /// Selects the drag family named by `name`, ignoring ASCII case; any name
    /// other than G1 or G7 selects no drag.
    pub fn from_name(name: &str) -> (r: ModelKind)
        ensures
            r == kind_of_name(name@),
    {
        if name.unicode_len() != 2 {
            return ModelKind::NoDrag;
        }
        let family = name.get_char(0);
        if family != 'G' && family != 'g' {
            return ModelKind::NoDrag;
        }
        let digit = name.get_char(1);
        if digit == '1' {
            ModelKind::G1
        } else if digit == '7' {
            ModelKind::G7
        } else {
            ModelKind::NoDrag
        }
    }
}

/// Lower speed bounds, in feet per second, of the power-law segments of the
/// G1 and G7 retardation tables, fastest segment first. Segment `i` covers
/// `[breaks[i], breaks[i - 1])`, and the first one is open above.
pub open spec fn speed_breaks() -> Seq<u32> {
    seq![
        4230u32, 3680, 3450, 3295, 3130, 2960, 2830, 2680, 2460, 2225, 2015, 1890, 1810, 1730,
        1595, 1520, 1420, 1360, 1315, 1280, 1220, 1185, 1150, 1100, 1060, 1025, 980, 940, 905,
        860, 810, 780, 750, 700, 640, 600, 550, 500, 0,
    ]
}

/// Bounds that fall strictly from one segment to the next, so that the
/// segments are contiguous and do not overlap.
pub open spec fn strictly_descending(b: Seq<u32>) -> bool {
    forall|i: int, j: int| 0 <= i < j < b.len() ==> b[i] > b[j]
}

/// The segment of a table with lower bounds `b` that holds a speed whose whole
/// part is `v`: the first whose lower bound it reaches, or the last segment
/// when it reaches none.
pub open spec fn is_segment_of(b: Seq<u32>, v: u64, r: int) -> bool {
    &&& 0 <= r < b.len()
    &&& forall|j: int| 0 <= j < r ==> b[j] > v
    &&& (b[r] <= v || r == b.len() - 1)
}

/// The segment bounds of the G1 and G7 tables.
pub fn g_table_breaks_fps() -> (r: Vec<u32>)
    ensures
        r@ == speed_breaks(),
{
    let r: Vec<u32> = vec![
        4230u32, 3680, 3450, 3295, 3130, 2960, 2830, 2680, 2460, 2225, 2015, 1890, 1810, 1730,
        1595, 1520, 1420, 1360, 1315, 1280, 1220, 1185, 1150, 1100, 1060, 1025, 980, 940, 905,
        860, 810, 780, 750, 700, 640, 600, 550, 500, 0,
    ];
    assert(r@ =~= speed_breaks());
    r
}

/// Each bound from index `k` on is above the next one.
pub open spec fn descends_from(b: Seq<u32>, k: nat) -> bool
    decreases b.len() - k,
{
    if k + 1 >= b.len() {
        true
    } else {
        b[k as int] > b[k + 1 as int] && descends_from(b, k + 1)
    }
}

/// The G1 and G7 bounds fall strictly and end at zero, so every speed lies in
/// exactly one segment and the search never needs its fallback.
pub proof fn lemma_speed_breaks_cover_all_speeds()
    ensures
        speed_breaks().len() == 39,
        strictly_descending(speed_breaks()),
        speed_breaks().last() == 0,
        forall|v: u64, r: int| is_segment_of(speed_breaks(), v, r) ==> speed_breaks()[r] <= v,
{
    let b = speed_breaks();
    reveal_with_fuel(descends_from, 40);
    assert(descends_from(b, 0));
    assert forall|i: int, j: int| 0 <= i < j < b.len() implies b[i] > b[j] by {
        lemma_descends(b, 0, i, j);
    }
}

proof fn lemma_descends(b: Seq<u32>, k: nat, i: int, j: int)
    requires
        descends_from(b, k),
        k <= i < j < b.len(),
    ensures
        b[i] > b[j],
    decreases j - k,
{
    if k < i {
        lemma_descends(b, k + 1, i, j);
    } else if j > i + 1 {
        lemma_descends(b, k + 1, i + 1, j);
    }
}

/// Finds the segment of a retardation table, given its lower bounds fastest
/// first, for a speed whose whole part in feet per second is `v_fps_floor`.
/// Bounds are whole numbers, so a speed reaches a bound exactly when its
/// whole part does.
pub fn find_segment(lower_bounds_fps: &Vec<u32>, v_fps_floor: u64) -> (r: usize)
    requires
        lower_bounds_fps@.len() > 0,
    ensures
        is_segment_of(lower_bounds_fps@, v_fps_floor, r as int),
{
    let n = lower_bounds_fps.len();
    let mut i: usize = 0;
    while i < n
        invariant
            n == lower_bounds_fps@.len(),
            i <= n,
            forall|j: int| 0 <= j < i ==> lower_bounds_fps@[j] > v_fps_floor,
        decreases n - i,
    {
        if (lower_bounds_fps[i] as u64) <= v_fps_floor {
            return i;
        }
        i = i + 1;
    }
    n - 1
}

} // verus!

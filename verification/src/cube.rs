use vstd::prelude::*;
use vstd::set_lib::lemma_int_range;
use vstd::set_lib::set_int_range;

use crate::apa106led::Apa106Led;
use crate::encoder::colour_to_raw;
use crate::encoder::colour_to_raw_nibble;
use crate::encoder::raw_nibble_spec;
use crate::encoder::raw_spec;

verus! {

/// The 24-byte block a flushed byte stream holds for voxel `v`.
pub open spec fn voxel_bytes(stream: Seq<u8>, v: int) -> Seq<u8>
    recommends
        0 <= v,
        24 * v + 24 <= stream.len(),
{
    stream.subrange(24 * v, 24 * v + 24)
}

/// The 12-byte block a nibble-encoded byte stream holds for voxel `v`.
pub open spec fn voxel_nibble_bytes(stream: Seq<u8>, v: int) -> Seq<u8>
    recommends
        0 <= v,
        12 * v + 12 <= stream.len(),
{
    stream.subrange(12 * v, 12 * v + 12)
}

/// The one failure in this domain: a voxel index at or past the 64 voxels
/// of the cube.
#[derive(Clone, Copy, PartialEq, Eq, Structural, Debug)]
pub enum CubeError {
    IndexOutOfRange,
}

/// The panel (x coordinate) a voxel index lies in.
pub open spec fn panel_of(i: int) -> int {
    i % 4
}

/// The slice (y coordinate) a voxel index lies in.
pub open spec fn slice_of(i: int) -> int {
    (i / 4) % 4
}

/// The layer (z coordinate) a voxel index lies in.
pub open spec fn layer_of(i: int) -> int {
    i / 16
}

/// The chain index of the voxel at a coordinate triple: the wiring order
/// of the LEDs, `x + 4 * y + 16 * z`.
pub open spec fn voxel_index_spec(x: int, y: int, z: int) -> int {
    x + 4 * y + 16 * z
}

/// The chain index of the voxel at `(x, y, z)`.
pub fn voxel_index(x: usize, y: usize, z: usize) -> (i: usize)
    requires
        x < 4,
        y < 4,
        z < 4,
    ensures
        i == voxel_index_spec(x as int, y as int, z as int),
        i < 64,
        panel_of(i as int) == x,
        slice_of(i as int) == y,
        layer_of(i as int) == z,
{
    x + 4 * y + 16 * z
}

/// A 4x4x4 frame buffer: one colour per voxel, held in wiring chain
/// order, voxel `i` at position `i` of the view.
pub struct Cube4 {
    cube_frame: [Apa106Led; 64],
}

impl View for Cube4 {
    type V = Seq<Apa106Led>;

    closed spec fn view(&self) -> Seq<Apa106Led> {
        self.cube_frame@
    }
}

impl Cube4 {
    /// A frame buffer always holds exactly 64 voxels.
    pub proof fn lemma_len(&self)
        ensures
            self@.len() == 64,
    {
    }

    /// A fresh buffer with every voxel set to `background`.
    pub fn new(background: Apa106Led) -> (c: Cube4)
        ensures
            c@.len() == 64,
            forall|i: int| 0 <= i < 64 ==> c@[i] == background,
    {
        Cube4 { cube_frame: [background; 64] }
    }

    /// Overwrites all 64 voxels with one colour.
    pub fn fill(&mut self, fill_colour: Apa106Led)
        ensures
            final(self)@.len() == 64,
            forall|i: int| 0 <= i < 64 ==> final(self)@[i] == fill_colour,
    {
        self.cube_frame = [fill_colour; 64];
    }

    /// Overwrites the voxel at `index`, or reports `IndexOutOfRange` and
    /// leaves the buffer untouched when `index` is at or past 64.
    pub fn set_at_index(&mut self, index: usize, colour: Apa106Led) -> (r: Result<
        (),
        CubeError,
    >)
        ensures
            index < 64 ==> r == Ok::<(), CubeError>(()) && final(self)@ == old(self)@.update(
                index as int,
                colour,
            ),
            index >= 64 ==> r == Err::<(), CubeError>(CubeError::IndexOutOfRange) && final(self)@
                == old(self)@,
    {
        if index < 64 {
            self.cube_frame[index] = colour;
            Ok(())
        } else {
            Err(CubeError::IndexOutOfRange)
        }
    }

    /// The colour of the voxel at `index`, or `IndexOutOfRange` past the
    /// end of the cube.
    pub fn get_at_index(&self, index: usize) -> (r: Result<Apa106Led, CubeError>)
        ensures
            index < 64 ==> r == Ok::<Apa106Led, CubeError>(self@[index as int]),
            index >= 64 ==> r == Err::<Apa106Led, CubeError>(CubeError::IndexOutOfRange),
    {
        if index < 64 {
            Ok(self.cube_frame[index])
        } else {
            Err(CubeError::IndexOutOfRange)
        }
    }

    /// Overwrites the 16 voxels of one panel (the slab with x coordinate
    /// `panel`) and no others.
    pub fn fill_panel(&mut self, panel: usize, colour: Apa106Led)
        requires
            panel < 4,
        ensures
            final(self)@.len() == 64,
            forall|i: int|
                0 <= i < 64 && panel_of(i) == panel ==> #[trigger] final(self)@[i] == colour,
            forall|i: int|
                0 <= i < 64 && panel_of(i) != panel ==> #[trigger] final(self)@[i] == old(
                    self,
                )@[i],
    {
        for i in 0..64usize
            invariant
                self@.len() == 64,
                forall|j: int| 0 <= j < i && panel_of(j) == panel ==> #[trigger] self@[j] == colour,
                forall|j: int|
                    0 <= j < i && panel_of(j) != panel ==> #[trigger] self@[j] == old(self)@[j],
                forall|j: int| i <= j < 64 ==> #[trigger] self@[j] == old(self)@[j],
        {
            if i % 4 == panel {
                self.cube_frame[i] = colour;
            }
        }
    }

    /// Overwrites the 16 voxels of one slice (the slab with y coordinate
    /// `slice`) and no others.
    pub fn fill_slice(&mut self, slice: usize, colour: Apa106Led)
        requires
            slice < 4,
        ensures
            final(self)@.len() == 64,
            forall|i: int|
                0 <= i < 64 && slice_of(i) == slice ==> #[trigger] final(self)@[i] == colour,
            forall|i: int|
                0 <= i < 64 && slice_of(i) != slice ==> #[trigger] final(self)@[i] == old(
                    self,
                )@[i],
    {
        for i in 0..64usize
            invariant
                self@.len() == 64,
                forall|j: int| 0 <= j < i && slice_of(j) == slice ==> #[trigger] self@[j] == colour,
                forall|j: int|
                    0 <= j < i && slice_of(j) != slice ==> #[trigger] self@[j] == old(self)@[j],
                forall|j: int| i <= j < 64 ==> #[trigger] self@[j] == old(self)@[j],
        {
            if (i / 4) % 4 == slice {
                self.cube_frame[i] = colour;
            }
        }
    }

    /// Overwrites the 16 voxels of one layer (the slab with z coordinate
    /// `layer`) and no others.
    pub fn fill_layer(&mut self, layer: usize, colour: Apa106Led)
        requires
            layer < 4,
        ensures
            final(self)@.len() == 64,
            forall|i: int|
                0 <= i < 64 && layer_of(i) == layer ==> #[trigger] final(self)@[i] == colour,
            forall|i: int|
                0 <= i < 64 && layer_of(i) != layer ==> #[trigger] final(self)@[i] == old(
                    self,
                )@[i],
    {
        for i in 0..64usize
            invariant
                self@.len() == 64,
                forall|j: int| 0 <= j < i && layer_of(j) == layer ==> #[trigger] self@[j] == colour,
                forall|j: int|
                    0 <= j < i && layer_of(j) != layer ==> #[trigger] self@[j] == old(self)@[j],
                forall|j: int| i <= j < 64 ==> #[trigger] self@[j] == old(self)@[j],
        {
            if i / 16 == layer {
                self.cube_frame[i] = colour;
            }
        }
    }

    /// Serializes the whole frame for the transmitter: for voxel 0 up to
    /// voxel 63 in wiring chain order, the 24 pulse bytes of the voxel's
    /// gamma-corrected colour, 1536 bytes in all.  The caller hands the
    /// bytes to the byte-clocked transmitter unchanged and in order.
    #[verifier::loop_isolation(false)]
    pub fn flush(&self) -> (bytes: Vec<u8>)
        ensures
            bytes@.len() == 1536,
            forall|v: int| 0 <= v < 64 ==> #[trigger] voxel_bytes(bytes@, v) == raw_spec(self@[v]),
    {
        let mut bytes: Vec<u8> = Vec::new();
        for v in 0..64usize
            invariant
                bytes@.len() == 24 * v,
                forall|u: int| 0 <= u < v ==> #[trigger] voxel_bytes(bytes@, u) == raw_spec(self@[u]),
        {
            let raw = colour_to_raw(&self.cube_frame[v]);
            let ghost prefix = bytes@;
            for k in 0..24usize
                invariant
                    bytes@ =~= prefix + raw@.subrange(0, k as int),
            {
                bytes.push(raw[k]);
                proof {
                    assert(bytes@ =~= prefix + raw@.subrange(0, k as int + 1));
                }
            }
            proof {
                assert(bytes@ =~= prefix + raw@);
                assert forall|u: int| 0 <= u < v + 1 implies #[trigger] voxel_bytes(bytes@, u)
                    == raw_spec(self@[u]) by {
                    if u < v {
                        assert(voxel_bytes(bytes@, u) =~= voxel_bytes(prefix, u));
                    } else {
                        assert(voxel_bytes(bytes@, u) =~= raw@);
                    }
                }
            }
        }
        bytes
    }

    /// Serializes the whole frame for the half-rate transmitter: the same
    /// pass as `flush`, but through the nibble-per-bit encoding, 12 bytes
    /// per voxel and 768 bytes in all.
    #[verifier::loop_isolation(false)]
    pub fn flush_nibble(&self) -> (bytes: Vec<u8>)
        ensures
            bytes@.len() == 768,
            forall|v: int|
                0 <= v < 64 ==> #[trigger] voxel_nibble_bytes(bytes@, v) == raw_nibble_spec(
                    self@[v],
                ),
    {
        let mut bytes: Vec<u8> = Vec::new();
        for v in 0..64usize
            invariant
                bytes@.len() == 12 * v,
                forall|u: int|
                    0 <= u < v ==> #[trigger] voxel_nibble_bytes(bytes@, u) == raw_nibble_spec(
                        self@[u],
                    ),
        {
            let raw = colour_to_raw_nibble(&self.cube_frame[v]);
            let ghost prefix = bytes@;
            for k in 0..12usize
                invariant
                    bytes@ =~= prefix + raw@.subrange(0, k as int),
            {
                bytes.push(raw[k]);
                proof {
                    assert(bytes@ =~= prefix + raw@.subrange(0, k as int + 1));
                }
            }
            proof {
                assert(bytes@ =~= prefix + raw@);
                assert forall|u: int| 0 <= u < v + 1 implies #[trigger] voxel_nibble_bytes(
                    bytes@,
                    u,
                ) == raw_nibble_spec(self@[u]) by {
                    if u < v {
                        assert(voxel_nibble_bytes(bytes@, u) =~= voxel_nibble_bytes(prefix, u));
                    } else {
                        assert(voxel_nibble_bytes(bytes@, u) =~= raw@);
                    }
                }
            }
        }
        bytes
    }
}

/// The set of voxel indices that make up panel `p`.
pub open spec fn panel_set(p: int) -> Set<int> {
    Set::new(|i: int| 0 <= i < 64 && panel_of(i) == p)
}

/// The set of voxel indices that make up slice `s`.
pub open spec fn slice_set(s: int) -> Set<int> {
    Set::new(|i: int| 0 <= i < 64 && slice_of(i) == s)
}

/// The set of voxel indices that make up layer `l`.
pub open spec fn layer_set(l: int) -> Set<int> {
    Set::new(|i: int| 0 <= i < 64 && layer_of(i) == l)
}

proof fn lemma_sixteen_distinct(s: Set<int>, f: spec_fn(int) -> int)
    requires
        forall|j: int, k: int| 0 <= j < k < 16 ==> #[trigger] f(j) != #[trigger] f(k),
        s =~= Set::new(|i: int| exists|j: int| 0 <= j < 16 && i == #[trigger] f(j)),
    ensures
        s.finite(),
        s.len() == 16,
{
    broadcast use vstd::set::group_set_axioms;

    lemma_int_range(0, 16);
    let dom = set_int_range(0, 16);
    assert forall|x1: int, x2: int|
        dom.contains(x1) && dom.contains(x2) && #[trigger] f(x1) == #[trigger] f(
            x2,
        ) implies x1 == x2 by {
        if x1 < x2 {
            assert(f(x1) != f(x2));
        } else if x2 < x1 {
            assert(f(x2) != f(x1));
        }
    }
    assert(vstd::relations::injective_on(f, dom));
    assert forall|i: int| dom.map(f).contains(i) implies s.contains(i) by {
        let a = choose|a: int| dom.contains(a) && i == #[trigger] f(a);
        assert(0 <= a < 16 && i == f(a));
    }
    assert forall|i: int| s.contains(i) implies dom.map(f).contains(i) by {
        let j = choose|j: int| 0 <= j < 16 && i == #[trigger] f(j);
        assert(dom.contains(j) && i == f(j));
    }
    assert(dom.map(f) =~= s);
    vstd::set_lib::lemma_map_size(dom, s, f);
}

/// Each panel holds exactly 16 of the 64 voxels.
pub proof fn lemma_panel_set_card(p: int)
    requires
        0 <= p < 4,
    ensures
        panel_set(p).finite(),
        panel_set(p).len() == 16,
{
    let f = |j: int| p + 4 * j;
    assert forall|i: int| panel_set(p).contains(i) implies exists|j: int|
        0 <= j < 16 && i == #[trigger] f(j) by {
        assert(i == f(i / 4));
    }
    lemma_sixteen_distinct(panel_set(p), f);
}

/// Each slice holds exactly 16 of the 64 voxels.
pub proof fn lemma_slice_set_card(s: int)
    requires
        0 <= s < 4,
    ensures
        slice_set(s).finite(),
        slice_set(s).len() == 16,
{
    let f = |j: int| (j % 4) + 4 * s + 16 * (j / 4);
    assert forall|i: int| slice_set(s).contains(i) implies exists|j: int|
        0 <= j < 16 && i == #[trigger] f(j) by {
        let j = (i % 4) + 4 * (i / 16);
        assert(i == f(j));
    }
    lemma_sixteen_distinct(slice_set(s), f);
}

/// Each layer holds exactly 16 of the 64 voxels.
pub proof fn lemma_layer_set_card(l: int)
    requires
        0 <= l < 4,
    ensures
        layer_set(l).finite(),
        layer_set(l).len() == 16,
{
    let f = |j: int| 16 * l + j;
    assert forall|i: int| layer_set(l).contains(i) implies exists|j: int|
        0 <= j < 16 && i == #[trigger] f(j) by {
        assert(i == f(i - 16 * l));
    }
    lemma_sixteen_distinct(layer_set(l), f);
}

/// Along any one axis, two different coordinates pick disjoint sets of
/// voxels: no voxel lies in two panels, two slices or two layers.
pub proof fn lemma_axis_disjoint(a: int, b: int)
    requires
        0 <= a < 4,
        0 <= b < 4,
        a != b,
    ensures
        panel_set(a).disjoint(panel_set(b)),
        slice_set(a).disjoint(slice_set(b)),
        layer_set(a).disjoint(layer_set(b)),
{
}

/// Along each axis, the four coordinate values together cover all 64
/// voxels: panels, slices and layers are each a partition of the cube.
pub proof fn lemma_axis_cover()
    ensures
        panel_set(0) + panel_set(1) + panel_set(2) + panel_set(3) == set_int_range(0, 64),
        slice_set(0) + slice_set(1) + slice_set(2) + slice_set(3) == set_int_range(0, 64),
        layer_set(0) + layer_set(1) + layer_set(2) + layer_set(3) == set_int_range(0, 64),
{
    broadcast use vstd::set::group_set_axioms;

    assert(panel_set(0) + panel_set(1) + panel_set(2) + panel_set(3) =~= set_int_range(0, 64));
    assert(slice_set(0) + slice_set(1) + slice_set(2) + slice_set(3) =~= set_int_range(0, 64));
    assert(layer_set(0) + layer_set(1) + layer_set(2) + layer_set(3) =~= set_int_range(0, 64));
}

} // verus!

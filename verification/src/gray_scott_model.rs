//! The state of the reaction-diffusion engine: the concentration field over
//! a toroidal grid, the rates of the model, and the index of the device
//! buffer that holds the current generation.
//!
//! The engine's arithmetic runs on the graphics device. What is kept here is
//! everything the host decides: which cell a coordinate addresses, what a
//! write leaves in the field, which of the two device buffers a pass reads
//! and writes, and the numbers handed to the device with each command.

use crate::binary32::{clamp_concentration, clamped, within, MINUS_ONE, ONE, ZERO};
use crate::utils::{addresses_cell, checked_wrapping_index, get_wrapping_index, wrapping_index};
use vstd::prelude::*;

verus! {

/// The size in bytes of one cell in a device buffer: two single-precision
/// numbers.
pub const UV_PAIR_BYTES: usize = 8;

/// The edge of the square of cells that one workgroup of a compute pass
/// covers.
pub const WORKGROUP_EDGE: u32 = 8;

/// The uniform block of a compute pass, field by field.
#[derive(Clone, Copy, Debug, PartialEq, Eq, Structural)]
pub struct SimulationParams {
    pub feed_rate: u32,
    pub kill_rate: u32,
    pub delta_u: u32,
    pub delta_v: u32,
    pub width: u32,
    pub height: u32,
}

/// One compute pass: the bind group to run it with and the number of
/// workgroups along each axis.
#[derive(Clone, Copy, Debug, PartialEq, Eq, Structural)]
pub struct Dispatch {
    pub bind_group: usize,
    pub workgroups_x: u32,
    pub workgroups_y: u32,
    pub workgroups_z: u32,
}

/// A change of rates as the device has to see it: the new uniform block, and
/// the bind group to rebuild with the buffers it reads and writes.
#[derive(Clone, Copy, Debug, PartialEq, Eq, Structural)]
pub struct RateUpdate {
    pub params: SimulationParams,
    pub bind_group: usize,
    pub input_buffer: usize,
    pub output_buffer: usize,
}

/// What a `ReactionDiffusionSystem` stands for.
pub struct SystemState {
    pub width: nat,
    pub height: nat,
    pub feed_rate: u32,
    pub kill_rate: u32,
    pub delta_u: u32,
    pub delta_v: u32,
    /// The concentrations `(u, v)` of every cell, row by row.
    pub field: Seq<(u32, u32)>,
    /// The device buffer that the next pass reads: 0 or 1.
    pub current_buffer: nat,
    pub nutrient_pattern: u32,
    pub nutrient_pattern_reversed: bool,
}

/// A cell as a write leaves it: both concentrations clamped to the range
/// from minus one to one.
pub open spec fn clamped_cell(cell: (u32, u32)) -> (u32, u32) {
    (clamped(cell.0, MINUS_ONE, ONE), clamped(cell.1, MINUS_ONE, ONE))
}

/// A field of `cells` cells at rest: `u` is one and `v` is zero everywhere.
pub open spec fn rest_field(cells: nat) -> Seq<(u32, u32)> {
    Seq::new(cells, |i: int| (ONE, ZERO))
}

/// A field as a bulk write leaves it: every cell clamped.
pub open spec fn clamped_field(values: Seq<(u32, u32)>) -> Seq<(u32, u32)> {
    values.map_values(|cell: (u32, u32)| clamped_cell(cell))
}

/// Whether both concentrations of a cell lie between minus one and one.
pub open spec fn cell_in_range(cell: (u32, u32)) -> bool {
    within(cell.0, MINUS_ONE, ONE) && within(cell.1, MINUS_ONE, ONE)
}

/// The bind group with index `index` reads the buffer of the same index and
/// writes the other one.
pub open spec fn bind_group_input(index: nat) -> nat {
    index
}

/// The buffer that the bind group with index `index` writes.
pub open spec fn bind_group_output(index: nat) -> nat {
    (1 - index) as nat
}

/// The number of workgroups that cover `cells` cells along one axis, where
/// `cells` is truncated to the 32 bits the device counts in.
pub open spec fn workgroups_for(cells: nat) -> int {
    ((cells as u32) + 7) / 8
}

impl SystemState {
    /// The invariant of the engine: the field has one cell for each grid
    /// position, every concentration lies between minus one and one, and the
    /// field fits in an allocation.
    pub open spec fn wf(self) -> bool {
        &&& self.width <= isize::MAX
        &&& self.height <= isize::MAX
        &&& self.field.len() == self.width * self.height
        &&& self.field.len() * UV_PAIR_BYTES <= isize::MAX
        &&& self.current_buffer <= 1
        &&& forall|i: int| 0 <= i < self.field.len() ==> cell_in_range(#[trigger] self.field[i])
    }

    /// The uniform block for this state. The device counts the grid in 32
    /// bits.
    pub open spec fn params(self) -> SimulationParams {
        SimulationParams {
            feed_rate: self.feed_rate,
            kill_rate: self.kill_rate,
            delta_u: self.delta_u,
            delta_v: self.delta_v,
            width: self.width as u32,
            height: self.height as u32,
        }
    }

    /// The index of the cell that `(x, y)` addresses.
    pub open spec fn index_of(self, x: int, y: int) -> int {
        wrapping_index(x, y, self.width as int, self.height as int)
    }

    /// Whether `(x, y)` addresses a cell of the field.
    pub open spec fn addresses(self, x: int, y: int) -> bool {
        addresses_cell(x, y, self.width as int, self.height as int)
    }

    /// The state after the reversal of the nutrient pattern was toggled.
    pub open spec fn toggled(self) -> SystemState {
        SystemState { nutrient_pattern_reversed: !self.nutrient_pattern_reversed, ..self }
    }

    /// The state after one compute pass was issued: the buffers change roles.
    pub open spec fn stepped(self) -> SystemState {
        SystemState { current_buffer: (1 - self.current_buffer) as nat, ..self }
    }
}

/// The engine's host-side state.
pub struct ReactionDiffusionSystem {
    width: usize,
    height: usize,
    feed_rate: u32,
    kill_rate: u32,
    delta_u: u32,
    delta_v: u32,
    uvs: Vec<(u32, u32)>,
    current_buffer: usize,
    nutrient_pattern: u32,
    nutrient_pattern_reversed: bool,
}

impl View for ReactionDiffusionSystem {
    type V = SystemState;

    closed spec fn view(&self) -> SystemState {
        SystemState {
            width: self.width as nat,
            height: self.height as nat,
            feed_rate: self.feed_rate,
            kill_rate: self.kill_rate,
            delta_u: self.delta_u,
            delta_v: self.delta_v,
            field: self.uvs@,
            current_buffer: self.current_buffer as nat,
            nutrient_pattern: self.nutrient_pattern,
            nutrient_pattern_reversed: self.nutrient_pattern_reversed,
        }
    }
}

impl ReactionDiffusionSystem {
    /// A system at rest: `u` is one and `v` is zero in every cell, the first
    /// device buffer is current, the nutrient pattern is the uniform one.
    pub fn new(
        width: usize,
        height: usize,
        feed_rate: u32,
        kill_rate: u32,
        delta_u: u32,
        delta_v: u32,
    ) -> (system: Self)
        requires
            width <= isize::MAX,
            height <= isize::MAX,
            width * height * UV_PAIR_BYTES <= isize::MAX,
        ensures
            system@.wf(),
            system@ == (SystemState {
                width: width as nat,
                height: height as nat,
                feed_rate,
                kill_rate,
                delta_u,
                delta_v,
                field: rest_field((width * height) as nat),
                current_buffer: 0,
                nutrient_pattern: 0,
                nutrient_pattern_reversed: false,
            }),
    {
        assert(width * height <= width * height * UV_PAIR_BYTES) by (nonlinear_arith)
            requires
                0 <= width * height,
                UV_PAIR_BYTES == 8,
        ;
        let vec_capacity: usize = width * height;
        let mut uvs: Vec<(u32, u32)> = Vec::new();
        let mut i: usize = 0;
        while i < vec_capacity
            invariant
                i <= vec_capacity,
                uvs@ == Seq::new(i as nat, |k: int| (ONE, ZERO)),
            decreases vec_capacity - i,
        {
            uvs.push((ONE, ZERO));
            i = i + 1;
        }
        let system = Self {
            width,
            height,
            feed_rate,
            kill_rate,
            delta_u,
            delta_v,
            uvs,
            current_buffer: 0,
            nutrient_pattern: 0,
            nutrient_pattern_reversed: false,
        };
        assert(system@.field =~= Seq::new((width * height) as nat, |i: int| (ONE, ZERO)));
        system
    }

    /// Whether a grid of `width` by `height` cells can be held: both sides
    /// and the size of the field in bytes are within what memory can be
    /// asked for.
    pub fn can_hold(width: usize, height: usize) -> (fits: bool)
        ensures
            fits == (width <= isize::MAX && height <= isize::MAX && width * height * UV_PAIR_BYTES
                <= isize::MAX),
    {
        if width > isize::MAX as usize || height > isize::MAX as usize {
            return false;
        }
        match width.checked_mul(height) {
            Some(cells) => match cells.checked_mul(UV_PAIR_BYTES) {
                Some(bytes) => bytes <= isize::MAX as usize,
                None => false,
            },
            None => {
                assert(width * height * UV_PAIR_BYTES > usize::MAX) by (nonlinear_arith)
                    requires
                        width * height > usize::MAX,
                        UV_PAIR_BYTES == 8,
                ;
                false
            },
        }
    }

    /// Puts the whole field to rest: `u` is one and `v` is zero in every
    /// cell. Nothing else changes.
    pub fn clear_screen(&mut self)
        requires
            old(self)@.wf(),
        ensures
            final(self)@.wf(),
            final(self)@ == (SystemState {
                field: rest_field(old(self)@.field.len()),
                ..old(self)@
            }),
    {
        let n = self.uvs.len();
        let mut i: usize = 0;
        while i < n
            invariant
                i <= n,
                self.uvs@.len() == n,
                forall|k: int| 0 <= k < i ==> self.uvs@[k] == (ONE, ZERO),
                forall|k: int| 0 <= k < n ==> cell_in_range(#[trigger] self.uvs@[k]),
                self.width == old(self).width,
                self.height == old(self).height,
                self.feed_rate == old(self).feed_rate,
                self.kill_rate == old(self).kill_rate,
                self.delta_u == old(self).delta_u,
                self.delta_v == old(self).delta_v,
                self.current_buffer == old(self).current_buffer,
                self.nutrient_pattern == old(self).nutrient_pattern,
                self.nutrient_pattern_reversed == old(self).nutrient_pattern_reversed,
            decreases n - i,
        {
            self.uvs.set(i, (ONE, ZERO));
            i = i + 1;
        }
        assert(self.uvs@ =~= rest_field(n as nat));
    }

    /// The number of cells in a row.
    pub fn width(&self) -> (width: usize)
        ensures
            width == self@.width,
    {
        self.width
    }

    /// The number of rows.
    pub fn height(&self) -> (height: usize)
        ensures
            height == self@.height,
    {
        self.height
    }

    /// The feed and kill rates that the next pass uses.
    pub fn rates(&self) -> (rates: (u32, u32))
        ensures
            rates == (self@.feed_rate, self@.kill_rate),
    {
        (self.feed_rate, self.kill_rate)
    }

    /// The whole field, row by row.
    pub fn uvs(&self) -> (cells: &[(u32, u32)])
        ensures
            cells@ == self@.field,
    {
        self.uvs.as_slice()
    }

    /// Whether `(x, y)` addresses a cell of the field.
    pub fn addresses(&self, x: isize, y: isize) -> (found: bool)
        ensures
            found == self@.addresses(x as int, y as int),
    {
        checked_wrapping_index(x, y, self.width, self.height).is_some()
    }

    /// The index of the cell that `(x, y)` addresses.
    pub fn get_index(&self, x: isize, y: isize) -> (index: usize)
        requires
            self@.wf(),
            self@.addresses(x as int, y as int),
        ensures
            index == self@.index_of(x as int, y as int),
            index < self@.field.len(),
    {
        get_wrapping_index(x, y, self.width, self.height)
    }

    /// The concentrations of the cell that `(x, y)` addresses.
    pub fn get(&self, x: isize, y: isize) -> (cell: (u32, u32))
        requires
            self@.wf(),
            self@.addresses(x as int, y as int),
        ensures
            cell == self@.field[self@.index_of(x as int, y as int)],
            cell_in_range(cell),
    {
        let index = self.get_index(x, y);
        self.uvs[index]
    }

    /// The concentrations of the cell with the row-major index `index`.
    pub fn get_by_index(&self, index: usize) -> (cell: (u32, u32))
        requires
            self@.wf(),
            index < self@.field.len(),
        ensures
            cell == self@.field[index as int],
            cell_in_range(cell),
    {
        self.uvs[index]
    }

    /// Writes one cell, with both concentrations clamped to the range from
    /// minus one to one. Nothing else changes.
    pub fn set(&mut self, x: isize, y: isize, v: (u32, u32))
        requires
            old(self)@.wf(),
            old(self)@.addresses(x as int, y as int),
        ensures
            final(self)@.wf(),
            final(self)@ == (SystemState {
                field: old(self)@.field.update(
                    old(self)@.index_of(x as int, y as int),
                    clamped_cell(v),
                ),
                ..old(self)@
            }),
    {
        let index = self.get_index(x, y);
        let v = (clamp_concentration(v.0), clamp_concentration(v.1));
        self.uvs.set(index, v);
    }

    /// Replaces the whole field by `values`, each concentration clamped to
    /// the range from minus one to one. Nothing else changes.
    pub fn set_all(&mut self, values: &[(u32, u32)])
        requires
            old(self)@.wf(),
            values@.len() == old(self)@.width * old(self)@.height,
        ensures
            final(self)@.wf(),
            final(self)@ == (SystemState {
                field: clamped_field(values@),
                ..old(self)@
            }),
    {
        let ghost target = clamped_field(values@);
        let n = values.len();
        let mut i: usize = 0;
        while i < n
            invariant
                i <= n,
                n == values@.len(),
                self.uvs@.len() == n,
                target == clamped_field(values@),
                forall|k: int| 0 <= k < i ==> self.uvs@[k] == target[k],
                forall|k: int| 0 <= k < n ==> cell_in_range(#[trigger] self.uvs@[k]),
                self.width == old(self).width,
                self.height == old(self).height,
                self.feed_rate == old(self).feed_rate,
                self.kill_rate == old(self).kill_rate,
                self.delta_u == old(self).delta_u,
                self.delta_v == old(self).delta_v,
                self.current_buffer == old(self).current_buffer,
                self.nutrient_pattern == old(self).nutrient_pattern,
                self.nutrient_pattern_reversed == old(self).nutrient_pattern_reversed,
            decreases n - i,
        {
            let (u, v) = values[i];
            self.uvs.set(i, (clamp_concentration(u), clamp_concentration(v)));
            i = i + 1;
        }
        assert(self.uvs@ =~= target);
    }

    /// The uniform block for the current rates and grid.
    pub fn params(&self) -> (params: SimulationParams)
        ensures
            params == self@.params(),
    {
        SimulationParams {
            feed_rate: self.feed_rate,
            kill_rate: self.kill_rate,
            delta_u: self.delta_u,
            delta_v: self.delta_v,
            width: #[verifier::truncate]
            (self.width as u32),
            height: #[verifier::truncate]
            (self.height as u32),
        }
    }

    /// The device buffer that the next pass reads and that writes to the
    /// field are copied to.
    pub fn current_buffer(&self) -> (index: usize)
        requires
            self@.wf(),
        ensures
            index == self@.current_buffer,
            index <= 1,
    {
        self.current_buffer
    }

    /// The device buffer that a read-back of the field copies from: the
    /// current one. It is the buffer that the last pass wrote and that
    /// writes to the field are copied to, so what was written is what is
    /// read back.
    pub fn readback_buffer(&self) -> (index: usize)
        requires
            self@.wf(),
        ensures
            index == self@.current_buffer,
            index <= 1,
    {
        self.current_buffer
    }

    /// The size in bytes of the field in a device buffer.
    pub fn field_byte_size(&self) -> (size: u64)
        requires
            self@.wf(),
        ensures
            size == self@.field.len() * UV_PAIR_BYTES,
    {
        (self.uvs.len() * UV_PAIR_BYTES) as u64
    }

    /// Where in a device buffer the cell with index `index` starts, in bytes.
    pub fn cell_byte_offset(&self, index: usize) -> (offset: u64)
        requires
            self@.wf(),
            index < self@.field.len(),
        ensures
            offset == index * UV_PAIR_BYTES,
    {
        (index * UV_PAIR_BYTES) as u64
    }

    /// Takes in a generation that was read back from the device, as
    /// `set_all` takes in any other field.
    pub fn store_readback(&mut self, values: &[(u32, u32)])
        requires
            old(self)@.wf(),
            values@.len() == old(self)@.width * old(self)@.height,
        ensures
            final(self)@.wf(),
            final(self)@ == (SystemState {
                field: clamped_field(values@),
                ..old(self)@
            }),
    {
        self.set_all(values)
    }

    /// Issues one step. The pass runs with the bind group of the current
    /// buffer, which reads that buffer and writes the other; afterwards the
    /// other buffer is current. The field and the rates are not touched.
    pub fn update(&mut self) -> (dispatch: Dispatch)
        requires
            old(self)@.wf(),
        ensures
            final(self)@.wf(),
            final(self)@ == old(self)@.stepped(),
            dispatch == (Dispatch {
                bind_group: old(self)@.current_buffer as usize,
                workgroups_x: workgroups_for(old(self)@.width) as u32,
                workgroups_y: workgroups_for(old(self)@.height) as u32,
                workgroups_z: 1,
            }),
    {
        let dispatch = Dispatch {
            bind_group: self.current_buffer,
            workgroups_x: workgroup_count(self.width),
            workgroups_y: workgroup_count(self.height),
            workgroups_z: 1,
        };
        self.current_buffer = 1 - self.current_buffer;
        dispatch
    }

    /// Changes the feed and kill rates; the next step uses them. The field
    /// stays as it is. Returns what the device has to be told.
    pub fn update_rates(&mut self, feed_rate: u32, kill_rate: u32) -> (update: RateUpdate)
        requires
            old(self)@.wf(),
        ensures
            final(self)@.wf(),
            final(self)@ == (SystemState { feed_rate, kill_rate, ..old(self)@ }),
            update == (RateUpdate {
                params: final(self)@.params(),
                bind_group: old(self)@.current_buffer as usize,
                input_buffer: bind_group_input(old(self)@.current_buffer) as usize,
                output_buffer: bind_group_output(old(self)@.current_buffer) as usize,
            }),
    {
        self.feed_rate = feed_rate;
        self.kill_rate = kill_rate;
        RateUpdate {
            params: self.params(),
            bind_group: self.current_buffer,
            input_buffer: self.current_buffer,
            output_buffer: 1 - self.current_buffer,
        }
    }

    /// Selects the nutrient pattern by its number, reversed or not.
    pub fn set_nutrient_pattern(&mut self, pattern_id: u32, reversed: bool)
        ensures
            final(self)@ == (SystemState {
                nutrient_pattern: pattern_id,
                nutrient_pattern_reversed: reversed,
                ..old(self)@
            }),
    {
        self.nutrient_pattern = pattern_id;
        self.nutrient_pattern_reversed = reversed;
    }

    /// Reverses the nutrient pattern, or restores it if it was reversed.
    pub fn toggle_nutrient_pattern_reversal(&mut self)
        ensures
            final(self)@ == old(self)@.toggled(),
    {
        self.nutrient_pattern_reversed = !self.nutrient_pattern_reversed;
    }

    /// The number of the nutrient pattern and whether it is reversed.
    pub fn nutrient_pattern(&self) -> (pattern: (u32, bool))
        ensures
            pattern == (self@.nutrient_pattern, self@.nutrient_pattern_reversed),
    {
        (self.nutrient_pattern, self.nutrient_pattern_reversed)
    }
}

/// The number of workgroups that cover `cells` cells along one axis.
pub fn workgroup_count(cells: usize) -> (count: u32)
    ensures
        count == workgroups_for(cells as nat),
{
    let cells: u32 = #[verifier::truncate]
    (cells as u32);
    cells / WORKGROUP_EDGE + if cells % WORKGROUP_EDGE == 0 {
        0
    } else {
        1
    }
}

/// The buffers that the bind group with index `index` reads and writes.
pub fn bind_group_buffers(index: usize) -> (buffers: (usize, usize))
    requires
        index <= 1,
    ensures
        buffers.0 == bind_group_input(index as nat),
        buffers.1 == bind_group_output(index as nat),
{
    (index, 1 - index)
}

/// Toggling the reversal of the nutrient pattern twice restores the state.
pub proof fn lemma_toggle_twice(state: SystemState)
    ensures
        state.toggled().toggled() == state,
{
}

/// A write with `set_all` is read back unchanged but for the clamp, and a
/// field that is in range already is read back as it was written.
pub proof fn lemma_set_all_then_read(values: Seq<(u32, u32)>)
    ensures
        clamped_field(values).len() == values.len(),
        forall|i: int|
            0 <= i < values.len() ==> #[trigger] clamped_field(values)[i] == clamped_cell(
                values[i],
            ),
        (forall|i: int| 0 <= i < values.len() ==> cell_in_range(#[trigger] values[i]))
            ==> clamped_field(values) == values,
{
    let written = clamped_field(values);
    if forall|i: int| 0 <= i < values.len() ==> cell_in_range(#[trigger] values[i]) {
        assert forall|i: int| 0 <= i < values.len() implies written[i] == values[i] by {
            assert(cell_in_range(values[i]));
        }
        assert(written =~= values);
    }
}

/// A cell that was written is read back as it was written but for the
/// clamp, every other cell is read back as before, and what is read back
/// lies in range: writing it again changes nothing.
pub proof fn lemma_set_then_get(field: Seq<(u32, u32)>, index: int, v: (u32, u32))
    requires
        0 <= index < field.len(),
    ensures
        field.update(index, clamped_cell(v))[index] == clamped_cell(v),
        forall|i: int|
            0 <= i < field.len() && i != index ==> #[trigger] field.update(
                index,
                clamped_cell(v),
            )[i] == field[i],
        cell_in_range(clamped_cell(v)),
        clamped_cell(clamped_cell(v)) == clamped_cell(v),
{
}

/// Two steps bring the buffers back to their roles.
pub proof fn lemma_step_twice(state: SystemState)
    requires
        state.wf(),
    ensures
        state.stepped().stepped() == state,
        state.stepped().wf(),
{
}

} // verus!

//! Colour lookup tables and the registry that hands them out by name.
//!
//! A table file is 768 bytes: 256 red values, then 256 green values, then 256
//! blue values. The registry keeps the files as they were registered and
//! splits one into its channels when it is loaded.

use vstd::prelude::*;
use vstd::string::StringExecFns;

verus! {

/// The number of entries in each channel of a table.
pub const LUT_CHANNEL_LEN: usize = 256;

/// The size of a table file in bytes: three channels.
pub const LUT_FILE_LEN: usize = 768;

/// A lookup table: a name and the three colour channels.
#[derive(Debug)]
pub struct LutData {
    pub name: String,
    pub red: Vec<u8>,
    pub green: Vec<u8>,
    pub blue: Vec<u8>,
}

/// What a `LutData` stands for.
pub struct LutView {
    pub name: Seq<char>,
    pub red: Seq<u8>,
    pub green: Seq<u8>,
    pub blue: Seq<u8>,
}

impl LutView {
    /// Whether each channel has its 256 entries.
    pub open spec fn is_complete(self) -> bool {
        &&& self.red.len() == LUT_CHANNEL_LEN
        &&& self.green.len() == LUT_CHANNEL_LEN
        &&& self.blue.len() == LUT_CHANNEL_LEN
    }

    /// The table with each channel in the opposite order.
    pub open spec fn reversed(self) -> LutView {
        LutView {
            name: self.name,
            red: self.red.reverse(),
            green: self.green.reverse(),
            blue: self.blue.reverse(),
        }
    }
}

impl View for LutData {
    type V = LutView;

    open spec fn view(&self) -> LutView {
        LutView { name: self.name@, red: self.red@, green: self.green@, blue: self.blue@ }
    }
}

/// Reverses the order of the bytes in place.
fn reverse_bytes(bytes: &mut Vec<u8>)
    ensures
        final(bytes)@ == old(bytes)@.reverse(),
{
    let n = bytes.len();
    let mut i: usize = 0;
    while i < n / 2
        invariant
            n == bytes@.len(),
            n == old(bytes)@.len(),
            i <= n / 2,
            forall|k: int| 0 <= k < i ==> bytes@[k] == old(bytes)@[n - 1 - k],
            forall|k: int| n - i <= k < n ==> bytes@[k] == old(bytes)@[n - 1 - k],
            forall|k: int| i <= k < n - i ==> bytes@[k] == old(bytes)@[k],
        decreases n / 2 - i,
    {
        let front = bytes[i];
        let back = bytes[n - 1 - i];
        bytes.set(i, back);
        bytes.set(n - 1 - i, front);
        i = i + 1;
    }
    assert(bytes@ =~= old(bytes)@.reverse());
}

/// A copy of the bytes from `from` up to `to`.
fn copy_range(bytes: &Vec<u8>, from: usize, to: usize) -> (copy: Vec<u8>)
    requires
        from <= to <= bytes@.len(),
    ensures
        copy@ == bytes@.subrange(from as int, to as int),
{
    let mut copy: Vec<u8> = Vec::new();
    let mut i: usize = from;
    while i < to
        invariant
            from <= i <= to <= bytes@.len(),
            copy@ == bytes@.subrange(from as int, i as int),
        decreases to - i,
    {
        copy.push(bytes[i]);
        assert(copy@ =~= bytes@.subrange(from as int, i + 1));
        i = i + 1;
    }
    copy
}

impl Clone for LutData {
    fn clone(&self) -> (copy: Self)
        ensures
            copy@ == self@,
    {
        let copy = LutData {
            name: self.name.clone(),
            red: copy_range(&self.red, 0, self.red.len()),
            green: copy_range(&self.green, 0, self.green.len()),
            blue: copy_range(&self.blue, 0, self.blue.len()),
        };
        assert(copy.red@ =~= self.red@);
        assert(copy.green@ =~= self.green@);
        assert(copy.blue@ =~= self.blue@);
        copy
    }
}

impl LutData {
    /// Reverses each of the three channels in place. The name stays.
    pub fn reverse(&mut self)
        ensures
            final(self)@ == old(self)@.reversed(),
    {
        reverse_bytes(&mut self.red);
        reverse_bytes(&mut self.green);
        reverse_bytes(&mut self.blue);
    }

    /// Whether each channel has its 256 entries.
    pub fn is_complete(&self) -> (complete: bool)
        ensures
            complete == self@.is_complete(),
    {
        self.red.len() == LUT_CHANNEL_LEN && self.green.len() == LUT_CHANNEL_LEN
            && self.blue.len() == LUT_CHANNEL_LEN
    }
}

/// Why a table could not be loaded.
#[derive(Clone, Copy, Debug, PartialEq, Eq, Structural)]
pub enum LutError {
    /// No table of that name is registered.
    NotFound,
    /// The table's file does not have 768 bytes.
    InvalidData,
}

impl LutError {
    /// The text of the error for a table named `name`.
    pub open spec fn message_text(self, name: Seq<char>) -> Seq<char> {
        match self {
            LutError::NotFound => "LUT '"@ + name + "' not found"@,
            LutError::InvalidData => "Invalid LUT file size"@,
        }
    }

    /// The text of the error for a table named `name`.
    pub fn message(&self, name: &str) -> (text: String)
        ensures
            text@ == self.message_text(name@),
    {
        match self {
            LutError::NotFound => {
                let text = String::from_str("LUT '");
                let text = text.concat(name);
                text.concat("' not found")
            },
            LutError::InvalidData => String::from_str("Invalid LUT file size"),
        }
    }
}

/// The table that a file of 768 bytes holds under the name `name`.
pub open spec fn table_of(name: Seq<char>, bytes: Seq<u8>) -> LutView {
    LutView {
        name,
        red: bytes.subrange(0, 256),
        green: bytes.subrange(256, 512),
        blue: bytes.subrange(512, 768),
    }
}

/// Whether a table named `name` is among `luts`.
pub open spec fn is_registered(luts: Seq<(Seq<char>, Seq<u8>)>, name: Seq<char>) -> bool {
    exists|i: int| 0 <= i < luts.len() && (#[trigger] luts[i]).0 == name
}

/// The position of the table named `name` among `luts`.
pub open spec fn position_of(luts: Seq<(Seq<char>, Seq<u8>)>, name: Seq<char>) -> int {
    choose|i: int| 0 <= i < luts.len() && (#[trigger] luts[i]).0 == name
}

/// Whether no two of `luts` share a name.
pub open spec fn names_distinct(luts: Seq<(Seq<char>, Seq<u8>)>) -> bool {
    forall|i: int, j: int|
        0 <= i < luts.len() && 0 <= j < luts.len() && (#[trigger] luts[i]).0 == (
        #[trigger] luts[j]).0 ==> i == j
}

/// What loading the table named `name` from `luts` gives.
pub open spec fn load_result(luts: Seq<(Seq<char>, Seq<u8>)>, name: Seq<char>) -> Result<
    LutView,
    LutError,
> {
    if !is_registered(luts, name) {
        Err(LutError::NotFound)
    } else if luts[position_of(luts, name)].1.len() != LUT_FILE_LEN {
        Err(LutError::InvalidData)
    } else {
        Ok(table_of(name, luts[position_of(luts, name)].1))
    }
}

/// What loading the table at the position `index` of `luts` gives.
pub open spec fn load_at(luts: Seq<(Seq<char>, Seq<u8>)>, index: int) -> Result<LutView, LutError> {
    if luts[index].1.len() != LUT_FILE_LEN {
        Err(LutError::InvalidData)
    } else {
        Ok(table_of(luts[index].0, luts[index].1))
    }
}

/// `luts` after the file `bytes` was registered under `name`: a table of that
/// name gets the new file and keeps its place, a new name goes to the end.
pub open spec fn registered(luts: Seq<(Seq<char>, Seq<u8>)>, name: Seq<char>, bytes: Seq<u8>) -> Seq<
    (Seq<char>, Seq<u8>),
> {
    if is_registered(luts, name) {
        luts.update(position_of(luts, name), (name, bytes))
    } else {
        luts.push((name, bytes))
    }
}

struct LutEntry {
    name: String,
    bytes: Vec<u8>,
}

/// The registry of table files, each under its name.
pub struct LutManager {
    entries: Vec<LutEntry>,
}

impl View for LutManager {
    type V = Seq<(Seq<char>, Seq<u8>)>;

    /// The registered files with their names, in the order in which the
    /// names were first registered.
    closed spec fn view(&self) -> Seq<(Seq<char>, Seq<u8>)> {
        self.entries@.map_values(|entry: LutEntry| (entry.name@, entry.bytes@))
    }
}

impl LutManager {
    /// The invariant of the registry: no two tables share a name.
    pub open spec fn wf(&self) -> bool {
        names_distinct(self@)
    }

    /// An empty registry.
    pub fn new() -> (manager: Self)
        ensures
            manager@ == Seq::<(Seq<char>, Seq<u8>)>::empty(),
            manager.wf(),
    {
        let manager = LutManager { entries: Vec::new() };
        assert(manager@ =~= Seq::<(Seq<char>, Seq<u8>)>::empty());
        manager
    }

    /// The number of registered tables.
    pub fn len(&self) -> (count: usize)
        ensures
            count == self@.len(),
    {
        self.entries.len()
    }

    /// The position of the table named `name`, if one is registered.
    fn find(&self, name: &String) -> (found: Option<usize>)
        requires
            self.wf(),
        ensures
            found is Some <==> is_registered(self@, name@),
            found matches Some(i) ==> i < self@.len() && i == position_of(self@, name@),
    {
        let mut i: usize = 0;
        while i < self.entries.len()
            invariant
                self.wf(),
                i <= self.entries@.len(),
                forall|k: int| 0 <= k < i ==> (#[trigger] self@[k]).0 != name@,
            decreases self.entries@.len() - i,
        {
            if self.entries[i].name == *name {
                assert(self@[i as int].0 == name@);
                assert(self@[position_of(self@, name@)].0 == name@);
                return Some(i);
            }
            i = i + 1;
        }
        None
    }

    /// The position of the table named `name` in the order of
    /// registration, if one is registered.
    pub fn position(&self, name: &str) -> (found: Option<usize>)
        requires
            self.wf(),
        ensures
            found is Some <==> is_registered(self@, name@),
            found matches Some(i) ==> i < self@.len() && i == position_of(self@, name@),
    {
        let key = String::from_str(name);
        self.find(&key)
    }

    /// Loads the table at the position `index` in the order of
    /// registration, as `load_lut` loads it by its name.
    pub fn load_lut_at(&self, index: usize) -> (loaded: Result<LutData, LutError>)
        requires
            self.wf(),
            index < self@.len(),
        ensures
            match loaded {
                Ok(lut) => load_at(self@, index as int) == Ok::<LutView, LutError>(lut@),
                Err(error) => load_at(self@, index as int) == Err::<LutView, LutError>(error),
            },
    {
        let available_luts = self.get_available_luts();
        proof {
            let name = self@[index as int].0;
            assert(self@[position_of(self@, name)].0 == name);
        }
        self.load_lut(available_luts[index].as_str())
    }

    /// Registers the file `bytes` under `name`. A table of that name is
    /// replaced and keeps its place; a new name goes to the end.
    pub fn register(&mut self, name: &str, bytes: Vec<u8>)
        requires
            old(self).wf(),
        ensures
            final(self).wf(),
            final(self)@ == registered(old(self)@, name@, bytes@),
    {
        let key = String::from_str(name);
        match self.find(&key) {
            Some(i) => {
                self.entries.set(i, LutEntry { name: key, bytes });
                assert(self@ =~= old(self)@.update(i as int, (name@, bytes@)));
            },
            None => {
                self.entries.push(LutEntry { name: key, bytes });
                assert(self@ =~= old(self)@.push((name@, bytes@)));
            },
        }
    }

    /// The names of the registered tables, in the order of registration.
    pub fn get_available_luts(&self) -> (names: Vec<String>)
        ensures
            names@.len() == self@.len(),
            forall|i: int| 0 <= i < names@.len() ==> (#[trigger] names@[i])@ == self@[i].0,
    {
        let mut names: Vec<String> = Vec::new();
        let mut i: usize = 0;
        while i < self.entries.len()
            invariant
                i <= self.entries@.len(),
                names@.len() == i,
                forall|k: int| 0 <= k < i ==> (#[trigger] names@[k])@ == self@[k].0,
            decreases self.entries@.len() - i,
        {
            names.push(self.entries[i].name.clone());
            i = i + 1;
        }
        names
    }

    /// Loads the table named `name`: its file split into the red, green and
    /// blue channels. Fails with `NotFound` where no table of that name is
    /// registered, and with `InvalidData` where its file is not 768 bytes
    /// long.
    pub fn load_lut(&self, name: &str) -> (loaded: Result<LutData, LutError>)
        requires
            self.wf(),
        ensures
            match loaded {
                Ok(lut) => load_result(self@, name@) == Ok::<LutView, LutError>(lut@),
                Err(error) => load_result(self@, name@) == Err::<LutView, LutError>(error),
            },
    {
        let key = String::from_str(name);
        let position = match self.find(&key) {
            Some(position) => position,
            None => {
                return Err(LutError::NotFound);
            },
        };
        let buffer = &self.entries[position].bytes;
        assert(buffer@ == self@[position as int].1);
        if buffer.len() != LUT_FILE_LEN {
            return Err(LutError::InvalidData);
        }
        let red = copy_range(buffer, 0, 256);
        let green = copy_range(buffer, 256, 512);
        let blue = copy_range(buffer, 512, 768);
        Ok(LutData { name: key, red, green, blue })
    }
}

impl Default for LutManager {
    fn default() -> (manager: Self)
        ensures
            manager@ == Seq::<(Seq<char>, Seq<u8>)>::empty(),
            manager.wf(),
    {
        Self::new()
    }
}

/// A table that was loaded has 256 entries in each channel.
pub proof fn lemma_loaded_is_complete(luts: Seq<(Seq<char>, Seq<u8>)>, name: Seq<char>)
    ensures
        load_result(luts, name) matches Ok(lut) ==> lut.is_complete() && lut.name == name,
{
}

/// A table that was registered is loaded as it was given.
pub proof fn lemma_registered_is_loaded(
    luts: Seq<(Seq<char>, Seq<u8>)>,
    name: Seq<char>,
    bytes: Seq<u8>,
)
    requires
        names_distinct(luts),
    ensures
        names_distinct(registered(luts, name, bytes)),
        is_registered(registered(luts, name, bytes), name),
        bytes.len() == LUT_FILE_LEN ==> load_result(registered(luts, name, bytes), name) == Ok::<
            LutView,
            LutError,
        >(table_of(name, bytes)),
        bytes.len() != LUT_FILE_LEN ==> load_result(registered(luts, name, bytes), name) == Err::<
            LutView,
            LutError,
        >(LutError::InvalidData),
{
    let after = registered(luts, name, bytes);
    if is_registered(luts, name) {
        let p = position_of(luts, name);
        assert(after[p].0 == name);
        assert forall|i: int, j: int|
            0 <= i < after.len() && 0 <= j < after.len() && (#[trigger] after[i]).0 == (
            #[trigger] after[j]).0 implies i == j by {
            assert(luts[i].0 == after[i].0);
            assert(luts[j].0 == after[j].0);
        }
    } else {
        let p = luts.len() as int;
        assert(after[p].0 == name);
        assert forall|i: int, j: int|
            0 <= i < after.len() && 0 <= j < after.len() && (#[trigger] after[i]).0 == (
            #[trigger] after[j]).0 implies i == j by {
            if i < p {
                assert(luts[i].0 == after[i].0);
            }
            if j < p {
                assert(luts[j].0 == after[j].0);
            }
        }
    }
    let q = position_of(after, name);
    assert(after[q].0 == name);
    assert(after[q].1 == bytes);
}

/// Reversing a table twice gives the table back.
pub proof fn lemma_reverse_twice(lut: LutView)
    ensures
        lut.reversed().reversed() == lut,
{
    assert(lut.red.reverse().reverse() =~= lut.red);
    assert(lut.green.reverse().reverse() =~= lut.green);
    assert(lut.blue.reverse().reverse() =~= lut.blue);
}

} // verus!

//! The 4 KiB address space, with the built-in font at its start.
use vstd::prelude::*;

verus! {

/// The number of addressable bytes.
pub const MEMORY_SIZE: usize = 4096;

/// The number of bytes of the built-in font: sixteen glyphs of five bytes.
pub const FONT_SIZE: usize = 80;

/// The address at which a program is loaded.
pub const PROGRAM_START: usize = 0x200;

/// The sixteen hexadecimal glyphs `0..F`, five bytes each, in ascending order.
pub open spec fn font() -> Seq<u8> {
    seq![
        0xF0u8, 0x90, 0x90, 0x90, 0xF0, // 0
        0x20, 0x60, 0x20, 0x20, 0x70, // 1
        0xF0, 0x10, 0xF0, 0x80, 0xF0, // 2
        0xF0, 0x10, 0xF0, 0x10, 0xF0, // 3
        0x90, 0x90, 0xF0, 0x10, 0x10, // 4
        0xF0, 0x80, 0xF0, 0x10, 0xF0, // 5
        0xF0, 0x80, 0xF0, 0x90, 0xF0, // 6
        0xF0, 0x10, 0x20, 0x40, 0x40, // 7
        0xF0, 0x90, 0xF0, 0x90, 0xF0, // 8
        0xF0, 0x90, 0xF0, 0x10, 0xF0, // 9
        0xF0, 0x90, 0xF0, 0x90, 0x90, // A
        0xE0, 0x90, 0xE0, 0x90, 0xE0, // B
        0xF0, 0x80, 0x80, 0x80, 0xF0, // C
        0xE0, 0x90, 0x90, 0x90, 0xE0, // D
        0xF0, 0x80, 0xF0, 0x80, 0xF0, // E
        0xF0, 0x80, 0xF0, 0x80, 0x80, // F
    ]
}

/// Memory as it is after a reset: the font, then zeros.
pub open spec fn initial_memory() -> Seq<u8> {
    Seq::new(MEMORY_SIZE as nat, |a: int| if a < FONT_SIZE { font()[a] } else { 0u8 })
}

/// `old` with `data` written over it from address `from`.
pub open spec fn write_range(old: Seq<u8>, from: int, data: Seq<u8>) -> Seq<u8> {
    Seq::new(old.len(), |a: int| if from <= a < from + data.len() { data[a - from] } else { old[a] })
}

/// A flat byte store of `MEMORY_SIZE` bytes.
pub struct Memory {
    data: Vec<u8>,
}

impl View for Memory {
    type V = Seq<u8>;

    closed spec fn view(&self) -> Seq<u8> {
        self.data@
    }
}

impl Memory {
    /// The store holds exactly `MEMORY_SIZE` bytes.
    pub open spec fn wf(&self) -> bool {
        self@.len() == MEMORY_SIZE
    }

    /// Creates a memory holding the font at `0x000..0x050` and zeros elsewhere.
    pub fn new() -> (r: Memory)
        ensures
            r@ == initial_memory(),
            r.wf(),
    {
        let mut memory = Memory { data: Vec::new() };
        memory.reset();
        memory
    }

    /// Reads the byte at `address`.
    pub fn read(&self, address: u16) -> (r: u8)
        requires
            self.wf(),
            address < MEMORY_SIZE,
        ensures
            r == self@[address as int],
    {
        self.data[address as usize]
    }

    /// Clears every byte and writes the font back at the start.
    pub fn reset(&mut self)
        ensures
            final(self)@ == initial_memory(),
            final(self).wf(),
    {
        self.data = vec![0u8; MEMORY_SIZE];
        let text = load_text();
        self.set_range(0, text.as_slice());
        assert(self@ =~= initial_memory());
    }

    /// Copies `data` into memory from address `from` on.
    pub fn set_range(&mut self, from: usize, data: &[u8])
        requires
            old(self).wf(),
            from + data@.len() <= MEMORY_SIZE,
        ensures
            final(self)@ == write_range(old(self)@, from as int, data@),
            final(self).wf(),
    {
        let n = data.len();
        let mut k: usize = 0;
        while k < n
            invariant
                n == data@.len(),
                from + n <= MEMORY_SIZE,
                k <= n,
                self.wf(),
                forall|a: int|
                    0 <= a < MEMORY_SIZE ==> #[trigger] self@[a] == if from <= a < from + k {
                        data@[a - from]
                    } else {
                        old(self)@[a]
                    },
            decreases n - k,
        {
            self.data.set(from + k, data[k]);
            k = k + 1;
        }
        assert(self@ =~= write_range(old(self)@, from as int, data@));
    }

    /// Writes `data` at `address`.
    pub fn set(&mut self, address: usize, data: u8)
        requires
            old(self).wf(),
            address < MEMORY_SIZE,
        ensures
            final(self)@ == old(self)@.update(address as int, data),
            final(self).wf(),
    {
        self.data.set(address, data);
    }
}

impl Default for Memory {
    fn default() -> (r: Memory)
        ensures
            r@ == initial_memory(),
            r.wf(),
    {
        Memory::new()
    }
}

/// The font glyphs as a buffer.
fn load_text() -> (r: Vec<u8>)
    ensures
        r@ == font(),
{
    let r = vec![
        0xF0u8, 0x90, 0x90, 0x90, 0xF0, // 0
        0x20, 0x60, 0x20, 0x20, 0x70, // 1
        0xF0, 0x10, 0xF0, 0x80, 0xF0, // 2
        0xF0, 0x10, 0xF0, 0x10, 0xF0, // 3
        0x90, 0x90, 0xF0, 0x10, 0x10, // 4
        0xF0, 0x80, 0xF0, 0x10, 0xF0, // 5
        0xF0, 0x80, 0xF0, 0x90, 0xF0, // 6
        0xF0, 0x10, 0x20, 0x40, 0x40, // 7
        0xF0, 0x90, 0xF0, 0x90, 0xF0, // 8
        0xF0, 0x90, 0xF0, 0x10, 0xF0, // 9
        0xF0, 0x90, 0xF0, 0x90, 0x90, // A
        0xE0, 0x90, 0xE0, 0x90, 0xE0, // B
        0xF0, 0x80, 0x80, 0x80, 0xF0, // C
        0xE0, 0x90, 0x90, 0x90, 0xE0, // D
        0xF0, 0x80, 0xF0, 0x80, 0xF0, // E
        0xF0, 0x80, 0xF0, 0x80, 0x80, // F
    ];
    assert(r@ =~= font());
    r
}

} // verus!

use vstd::prelude::*;

verus! {

/// Number of byte cells behind the address bus: the whole 16-bit address space.
pub const MEMORY_SIZE: usize = 0x10000;

/// Flat 64 KiB memory. Every 16-bit address names one cell, so no access can fail.
pub struct Bus {
    memory: Vec<u8>,
}

impl View for Bus {
    type V = Seq<u8>;

    closed spec fn view(&self) -> Seq<u8> {
        self.memory@
    }
}

/// The contents of a memory that was just cleared.
pub open spec fn zeroed() -> Seq<u8> {
    Seq::new(MEMORY_SIZE as nat, |i: int| 0u8)
}

impl Bus {
    /// Every bus holds exactly `MEMORY_SIZE` cells.
    #[verifier::type_invariant]
    pub open spec fn inv(self) -> bool {
        self@.len() == MEMORY_SIZE
    }

    /// A memory of `MEMORY_SIZE` cells, all zero.
    pub fn new() -> (bus: Self)
        ensures
            bus@ == zeroed(),
    {
        let mut memory: Vec<u8> = Vec::with_capacity(MEMORY_SIZE);
        let mut i: usize = 0;
        while i < MEMORY_SIZE
            invariant
                i <= MEMORY_SIZE,
                memory@.len() == i,
                forall|k: int| 0 <= k < i ==> memory@[k] == 0u8,
            decreases MEMORY_SIZE - i,
        {
            memory.push(0u8);
            i = i + 1;
        }
        assert(memory@ =~= zeroed());
        Self { memory }
    }

    /// The byte stored at `addr`.
    pub fn read(&self, addr: u16) -> (data: u8)
        ensures
            self@.len() == MEMORY_SIZE,
            data == self@[addr as int],
    {
        proof {
            use_type_invariant(self);
        }
        self.memory[addr as usize]
    }

    /// Stores `data` at `addr`; every other cell keeps its value.
    pub fn write(&mut self, addr: u16, data: u8)
        ensures
            final(self)@ == old(self)@.update(addr as int, data),
            final(self)@.len() == MEMORY_SIZE,
    {
        proof {
            use_type_invariant(&*self);
        }
        self.memory[addr as usize] = data;
    }

    /// Copies `image` into consecutive cells from `origin` on and returns `true`, if
    /// the image ends at or before the end of memory. An image that does not fit is
    /// not loaded: memory keeps its contents and the result is `false`.
    pub fn load(&mut self, origin: u16, image: &[u8]) -> (loaded: bool)
        ensures
            loaded == (origin + image@.len() <= MEMORY_SIZE),
            loaded ==> final(self)@ == overlaid(old(self)@, origin, image@),
            !loaded ==> final(self)@ == old(self)@,
    {
        proof {
            use_type_invariant(&*self);
        }
        let start = origin as usize;
        if image.len() > MEMORY_SIZE - start {
            return false;
        }
        let mut i: usize = 0;
        while i < image.len()
            invariant
                i <= image@.len(),
                start == origin,
                start + image@.len() <= MEMORY_SIZE,
                self.memory@.len() == MEMORY_SIZE,
                old(self).memory@.len() == MEMORY_SIZE,
                forall|a: int|
                    0 <= a < MEMORY_SIZE ==> self.memory@[a] == (if start <= a < start + i {
                        image@[a - start]
                    } else {
                        old(self).memory@[a]
                    }),
            decreases image@.len() - i,
        {
            self.memory[start + i] = image[i];
            i = i + 1;
        }
        assert(self.memory@ =~= overlaid(old(self).memory@, origin, image@));
        true
    }

    /// Clears every cell to zero.
    pub fn reset(&mut self)
        ensures
            final(self)@ == zeroed(),
    {
        proof {
            use_type_invariant(&*self);
        }
        let mut i: usize = 0;
        while i < MEMORY_SIZE
            invariant
                i <= MEMORY_SIZE,
                self.memory@.len() == MEMORY_SIZE,
                forall|k: int| 0 <= k < i ==> self.memory@[k] == 0u8,
            decreases MEMORY_SIZE - i,
        {
            self.memory[i] = 0u8;
            i = i + 1;
        }
        assert(self.memory@ =~= zeroed());
    }
}

/// The memory `mem` with `image` laid over it from `origin` on.
pub open spec fn overlaid(mem: Seq<u8>, origin: u16, image: Seq<u8>) -> Seq<u8> {
    Seq::new(
        mem.len(),
        |a: int|
            if origin <= a < origin + image.len() {
                image[a - origin]
            } else {
                mem[a]
            },
    )
}

/// The byte that the default input device puts on the data bus for `addr`.
pub open spec fn io_input(addr: u16) -> u8 {
    (addr % 256) as u8
}

/// Reads the I/O port `addr`. The default device answers with the low byte of the
/// port address.
pub fn read_io(addr: u16) -> (data: u8)
    ensures
        data == io_input(addr),
{
    (addr % 256) as u8
}

/// Writes `data` to the I/O port `addr`. The default device ignores the write.
pub fn write_io(addr: u16, data: u8) {
    let _ = addr;
    let _ = data;
}

} // verus!

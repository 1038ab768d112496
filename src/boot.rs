//! The cold-start sequence that takes a hart from reset to the application:
//! mask interrupts, zero the zero-initialised region, set the stack pointer,
//! enter the application.

use vstd::prelude::*;

verus! {

/// The build-time layout that the cold start relies on. Addresses are byte
/// addresses; RAM spans `[ram_base, ram_base + ram_len)`.
#[derive(Clone, Copy, Debug, PartialEq, Eq, Structural)]
pub struct MemoryImage {
    pub ram_base: usize,
    pub ram_len: usize,
    /// First byte of the zero-initialised region.
    pub bss_start: usize,
    /// One past the last byte of the zero-initialised region.
    pub bss_end: usize,
    /// Lowest address of the stack reservation.
    pub stack_base: usize,
    /// Size in bytes of the stack reservation.
    pub stack_size: usize,
}

/// The layout is sound: the zero-initialised region is word aligned and in
/// RAM, and the stack reservation is in RAM and not empty.
pub open spec fn image_valid(m: MemoryImage) -> bool {
    &&& m.ram_base + m.ram_len <= usize::MAX
    &&& m.stack_size > 0
    &&& m.bss_start % 4 == 0
    &&& m.bss_end % 4 == 0
    &&& m.ram_base <= m.bss_start <= m.bss_end <= m.ram_base + m.ram_len
    &&& m.ram_base <= m.stack_base
    &&& m.stack_base + m.stack_size <= m.ram_base + m.ram_len
}

/// The initial stack pointer: the top of the stack reservation.
pub open spec fn stack_top(m: MemoryImage) -> int {
    m.stack_base + m.stack_size
}

/// How far the cold start has got.
#[derive(Clone, Copy, Debug, PartialEq, Eq, Structural)]
pub enum Stage {
    /// Just out of reset.
    Reset,
    /// Interrupts masked, nothing pending.
    Masked,
    /// Zero-initialised region cleared.
    Zeroed,
    /// Stack pointer set.
    StackReady,
    /// Control handed to the application.
    Running,
}

/// Whether the stack pointer has been set by stage `s`.
pub open spec fn stack_set(s: Stage) -> bool {
    s == Stage::StackReady || s == Stage::Running
}

/// A hart as the contracts see it.
pub struct HartState {
    /// Interrupt-enable mask (`mie`).
    pub mie: u32,
    /// Interrupt-pending bits (`mip`).
    pub mip: u32,
    /// The bytes of RAM, the first at `image.ram_base`.
    pub ram: Seq<u8>,
    /// The stack pointer.
    pub sp: usize,
    /// How often the stack pointer has been written since reset.
    pub sp_writes: nat,
    /// How many word stores have been made since reset.
    pub word_stores: nat,
    pub stage: Stage,
    pub image: MemoryImage,
}

/// The byte at address `a` of RAM in state `h`.
pub open spec fn byte_at(h: HartState, a: int) -> u8 {
    h.ram[a - h.image.ram_base]
}

/// The invariant of every state from reset on: a sound layout, RAM of its
/// size, and a stack pointer written once exactly when the stage says so,
/// with the top of the stack.
pub open spec fn hart_wf(h: HartState) -> bool {
    &&& image_valid(h.image)
    &&& h.ram.len() == h.image.ram_len
    &&& stack_set(h.stage) ==> h.sp_writes == 1 && h.sp == stack_top(h.image)
    &&& !stack_set(h.stage) ==> h.sp_writes == 0
}

/// A hart with its RAM and registers.
pub struct Hart {
    mie: u32,
    mip: u32,
    ram: Vec<u8>,
    sp: usize,
    sp_writes: Ghost<nat>,
    word_stores: Ghost<nat>,
    stage: Stage,
    image: MemoryImage,
}

impl View for Hart {
    type V = HartState;

    closed spec fn view(&self) -> HartState {
        HartState {
            mie: self.mie,
            mip: self.mip,
            ram: self.ram@,
            sp: self.sp,
            sp_writes: self.sp_writes@,
            word_stores: self.word_stores@,
            stage: self.stage,
            image: self.image,
        }
    }
}

/// After the stack pointer has been set, every state of the hart has it at
/// the top of the stack, written once since reset.
pub proof fn lemma_stack_written_once(h: HartState)
    requires
        hart_wf(h),
        stack_set(h.stage),
    ensures
        h.sp == stack_top(h.image),
        h.sp_writes == 1,
        h.image.stack_base < h.sp <= h.image.stack_base + h.image.stack_size,
{
}

impl Hart {
    pub open spec fn wf(&self) -> bool {
        hart_wf(self@)
    }

    /// A hart just out of reset, with `image` as its layout and `ram` as
    /// the power-on contents of RAM.
    pub fn reset(image: MemoryImage, ram: Vec<u8>, mie: u32, mip: u32) -> (h: Hart)
        requires
            image_valid(image),
            ram@.len() == image.ram_len,
        ensures
            h.wf(),
            h@.stage == Stage::Reset,
            h@.image == image,
            h@.ram == ram@,
            h@.mie == mie,
            h@.mip == mip,
            h@.word_stores == 0,
    {
        Hart {
            mie,
            mip,
            ram,
            sp: 0,
            sp_writes: Ghost(0),
            word_stores: Ghost(0),
            stage: Stage::Reset,
            image,
        }
    }

    /// The byte at address `addr`.
    pub fn byte(&self, addr: usize) -> (b: u8)
        requires
            self.wf(),
            self@.image.ram_base <= addr < self@.image.ram_base + self@.image.ram_len,
        ensures
            b == byte_at(self@, addr as int),
    {
        self.ram[addr - self.image.ram_base]
    }

    /// The stack pointer.
    pub fn sp(&self) -> (r: usize)
        ensures
            r == self@.sp,
    {
        self.sp
    }

    /// The interrupt-enable mask and the pending bits.
    pub fn interrupts(&self) -> (r: (u32, u32))
        ensures
            r == (self@.mie, self@.mip),
    {
        (self.mie, self.mip)
    }

    /// How far the cold start has got.
    pub fn stage(&self) -> (r: Stage)
        ensures
            r == self@.stage,
    {
        self.stage
    }

    /// Step one: no interrupt source enabled, nothing pending.
    pub fn mask_interrupts(&mut self)
        requires
            old(self).wf(),
            old(self)@.stage == Stage::Reset,
        ensures
            final(self).wf(),
            final(self)@ == (HartState { mie: 0, mip: 0, stage: Stage::Masked, ..old(self)@ }),
    {
        self.mie = 0;
        self.mip = 0;
        self.stage = Stage::Masked;
    }

    /// Stores a zero word at the word-aligned address `addr`.
    fn clear_word(&mut self, addr: usize)
        requires
            old(self).wf(),
            addr % 4 == 0,
            old(self)@.image.ram_base <= addr,
            addr + 4 <= old(self)@.image.ram_base + old(self)@.image.ram_len,
        ensures
            final(self).wf(),
            final(self)@ == (HartState {
                ram: final(self)@.ram,
                word_stores: old(self)@.word_stores + 1,
                ..old(self)@
            }),
            forall|a: int|
                addr <= a < addr + 4 ==> #[trigger] byte_at(final(self)@, a) == 0,
            forall|a: int|
                (old(self)@.image.ram_base <= a < addr || addr + 4 <= a < old(self)@.image.ram_base
                    + old(self)@.image.ram_len) ==> #[trigger] byte_at(final(self)@, a) == byte_at(
                    old(self)@,
                    a,
                ),
    {
        let i = addr - self.image.ram_base;
        self.ram.set(i, 0);
        self.ram.set(i + 1, 0);
        self.ram.set(i + 2, 0);
        self.ram.set(i + 3, 0);
        self.word_stores = Ghost(self.word_stores@ + 1);
    }

    /// Step two: every byte of the zero-initialised region becomes zero, a
    /// word at a time, and no other byte changes.
    pub fn zero_bss(&mut self)
        requires
            old(self).wf(),
            old(self)@.stage == Stage::Masked,
        ensures
            final(self).wf(),
            final(self)@ == (HartState {
                ram: final(self)@.ram,
                word_stores: old(self)@.word_stores + (old(self)@.image.bss_end
                    - old(self)@.image.bss_start) as nat / 4,
                stage: Stage::Zeroed,
                ..old(self)@
            }),
            forall|a: int|
                old(self)@.image.bss_start <= a < old(self)@.image.bss_end ==> #[trigger] byte_at(
                    final(self)@,
                    a,
                ) == 0,
            forall|a: int|
                (old(self)@.image.ram_base <= a < old(self)@.image.bss_start
                    || old(self)@.image.bss_end <= a < old(self)@.image.ram_base
                    + old(self)@.image.ram_len) ==> #[trigger] byte_at(final(self)@, a) == byte_at(
                    old(self)@,
                    a,
                ),
    {
        let start = self.image.bss_start;
        let end = self.image.bss_end;
        let mut addr = start;
        while addr < end
            invariant
                self.wf(),
                self@.image == old(self)@.image,
                self@ == (HartState {
                    ram: self@.ram,
                    word_stores: old(self)@.word_stores + (addr - start) as nat / 4,
                    ..old(self)@
                }),
                start == self@.image.bss_start,
                end == self@.image.bss_end,
                start <= addr <= end,
                addr % 4 == 0,
                forall|a: int| start <= a < addr ==> #[trigger] byte_at(self@, a) == 0,
                forall|a: int|
                    (self@.image.ram_base <= a < start || addr <= a < self@.image.ram_base
                        + self@.image.ram_len) ==> #[trigger] byte_at(self@, a) == byte_at(
                        old(self)@,
                        a,
                    ),
            decreases end - addr,
        {
            self.clear_word(addr);
            assert((addr + 4 - start) as nat / 4 == (addr - start) as nat / 4 + 1);
            addr = addr + 4;
        }
        let ghost cleared = self@;
        self.stage = Stage::Zeroed;
        assert forall|a: int| #[trigger] byte_at(self@, a) == byte_at(cleared, a) by {}
    }

    /// Step three: the stack pointer goes to the top of the stack reservation.
    pub fn set_stack(&mut self)
        requires
            old(self).wf(),
            old(self)@.stage == Stage::Zeroed,
        ensures
            final(self).wf(),
            final(self)@ == (HartState {
                sp: stack_top(old(self)@.image) as usize,
                sp_writes: old(self)@.sp_writes + 1,
                stage: Stage::StackReady,
                ..old(self)@
            }),
    {
        self.sp = self.image.stack_base + self.image.stack_size;
        self.sp_writes = Ghost(self.sp_writes@ + 1);
        self.stage = Stage::StackReady;
    }

    /// Steps one to three, in order, from reset.
    pub fn cold_start(&mut self)
        requires
            old(self).wf(),
            old(self)@.stage == Stage::Reset,
        ensures
            final(self).wf(),
            final(self)@.stage == Stage::StackReady,
            final(self)@.mie == 0,
            final(self)@.mip == 0,
            final(self)@.sp == stack_top(old(self)@.image),
            final(self)@.sp_writes == 1,
            final(self)@.image == old(self)@.image,
            final(self)@.word_stores == old(self)@.word_stores + (old(self)@.image.bss_end
                - old(self)@.image.bss_start) as nat / 4,
            forall|a: int|
                old(self)@.image.bss_start <= a < old(self)@.image.bss_end ==> #[trigger] byte_at(
                    final(self)@,
                    a,
                ) == 0,
            forall|a: int|
                (old(self)@.image.ram_base <= a < old(self)@.image.bss_start
                    || old(self)@.image.bss_end <= a < old(self)@.image.ram_base
                    + old(self)@.image.ram_len) ==> #[trigger] byte_at(final(self)@, a) == byte_at(
                    old(self)@,
                    a,
                ),
    {
        let ghost reset = self@;
        self.mask_interrupts();
        let ghost masked = self@;
        assert forall|a: int| #[trigger] byte_at(masked, a) == byte_at(reset, a) by {}
        self.zero_bss();
        let ghost zeroed = self@;
        self.set_stack();
        assert forall|a: int| #[trigger] byte_at(self@, a) == byte_at(zeroed, a) by {}
    }

    /// Step four: control passes to the application, which never returns.
    /// Nothing else about the hart changes; in particular the stack pointer.
    pub fn enter(&mut self)
        requires
            old(self).wf(),
            old(self)@.stage == Stage::StackReady,
        ensures
            final(self).wf(),
            final(self)@ == (HartState { stage: Stage::Running, ..old(self)@ }),
    {
        self.stage = Stage::Running;
    }
}

} // verus!

use vstd::prelude::*;

verus! {

/// Two to the power `8 * len`: one more than the largest value that `len`
/// bytes hold.
pub open spec fn byte_limit(len: nat) -> nat
    decreases len,
{
    if len == 0 {
        1
    } else {
        256 * byte_limit((len - 1) as nat)
    }
}

/// The little-endian value of the `len` bytes of `mem` that start at `off`.
pub open spec fn read_le(mem: Seq<u8>, off: int, len: nat) -> nat
    decreases len,
{
    if len == 0 {
        0
    } else {
        mem[off] as nat + 256 * read_le(mem, off + 1, (len - 1) as nat)
    }
}

/// `mem` with the low `len` bytes of `data` stored at `off`, least
/// significant byte first.
pub open spec fn write_le(mem: Seq<u8>, off: int, data: nat, len: nat) -> Seq<u8>
    decreases len,
{
    if len == 0 {
        mem
    } else {
        write_le(mem.update(off, (data % 256) as u8), off + 1, data / 256, (len - 1) as nat)
    }
}

/// A little-endian value of `len` bytes is below `byte_limit(len)`.
pub proof fn lemma_read_le_bound(mem: Seq<u8>, off: int, len: nat)
    ensures
        read_le(mem, off, len) < byte_limit(len),
    decreases len,
{
    if len > 0 {
        lemma_read_le_bound(mem, off + 1, (len - 1) as nat);
    }
}

/// Eight bytes hold exactly the values of a 64-bit word.
pub proof fn lemma_byte_limit_8()
    ensures
        byte_limit(0) == 1,
        byte_limit(1) == 0x100,
        byte_limit(2) == 0x1_0000,
        byte_limit(4) == 0x1_0000_0000,
        byte_limit(8) == 0x1_0000_0000_0000_0000,
{
    reveal_with_fuel(byte_limit, 9);
}

/// The limit grows with the number of bytes.
pub proof fn lemma_byte_limit_monotonic(a: nat, b: nat)
    requires
        a <= b,
    ensures
        0 < byte_limit(a) <= byte_limit(b),
    decreases b,
{
    if b > 0 {
        if a < b {
            lemma_byte_limit_monotonic(a, (b - 1) as nat);
        } else {
            lemma_byte_limit_monotonic((a - 1) as nat, (b - 1) as nat);
        }
    }
}

/// A store changes no length and no byte outside the stored range.
pub proof fn lemma_write_le_frame(mem: Seq<u8>, off: int, data: nat, len: nat)
    requires
        0 <= off,
        off + len <= mem.len(),
    ensures
        write_le(mem, off, data, len).len() == mem.len(),
        forall|i: int|
            0 <= i < mem.len() && !(off <= i < off + len) ==> write_le(mem, off, data, len)[i]
                == mem[i],
    decreases len,
{
    if len > 0 {
        let m1 = mem.update(off, (data % 256) as u8);
        let rest = (len - 1) as nat;
        lemma_write_le_frame(m1, off + 1, data / 256, rest);
        assert forall|i: int| 0 <= i < mem.len() && !(off <= i < off + len) implies write_le(
            mem,
            off,
            data,
            len,
        )[i] == mem[i] by {
            assert(write_le(m1, off + 1, data / 256, rest)[i] == m1[i]);
        }
    }
}

/// Reading depends only on the bytes that are read.
pub proof fn lemma_read_le_agrees(a: Seq<u8>, b: Seq<u8>, off: int, len: nat)
    requires
        forall|i: int| off <= i < off + len ==> a[i] == b[i],
    ensures
        read_le(a, off, len) == read_le(b, off, len),
    decreases len,
{
    if len > 0 {
        lemma_read_le_agrees(a, b, off + 1, (len - 1) as nat);
    }
}

/// A load that follows a store of the same width at the same place reads
/// back the low bytes of what was stored.
pub proof fn lemma_read_after_write(mem: Seq<u8>, off: int, data: nat, len: nat)
    requires
        0 <= off,
        off + len <= mem.len(),
    ensures
        read_le(write_le(mem, off, data, len), off, len) == data % byte_limit(len),
    decreases len,
{
    if len > 0 {
        let first = (data % 256) as u8;
        let m1 = mem.update(off, first);
        let rest = (len - 1) as nat;
        let after = write_le(mem, off, data, len);
        assert(after == write_le(m1, off + 1, data / 256, rest));
        lemma_read_after_write(m1, off + 1, data / 256, rest);
        lemma_write_le_frame(m1, off + 1, data / 256, rest);
        assert(write_le(m1, off + 1, data / 256, rest)[off] == m1[off]);
        assert(after[off] == first);
        assert(read_le(after, off, len) == first as nat + 256 * read_le(after, off + 1, rest));
        lemma_byte_limit_monotonic(0, rest);
        let l = byte_limit(rest);
        vstd::arithmetic::div_mod::lemma_mod_breakdown(data as int, 256, l as int);
    }
}

/// Byte-addressed main memory.
pub struct DeviceDram {
    mem: Vec<u8>,
}

impl View for DeviceDram {
    type V = Seq<u8>;

    closed spec fn view(&self) -> Seq<u8> {
        self.mem@
    }
}

impl DeviceDram {
    /// A memory of `size` bytes, all zero.
    pub fn new(size: usize) -> (d: Self)
        ensures
            d@ == Seq::new(size as nat, |i: int| 0u8),
    {
        DeviceDram { mem: vec![0u8; size] }
    }

    /// The name that a memory goes by on a bus.
    pub fn get_name(&self) -> (name: &'static str)
        ensures
            name@ == "DRAM"@,
    {
        "DRAM"
    }

    pub fn size(&self) -> (n: usize)
        ensures
            n == self@.len(),
    {
        self.mem.len()
    }

    /// Copies `data` into the memory from offset `off` on. The part that
    /// would run past the end is dropped; returns the number of bytes
    /// copied.
    pub fn load(&mut self, off: usize, data: &Vec<u8>) -> (n: usize)
        ensures
            final(self)@.len() == old(self)@.len(),
            n == if off >= old(self)@.len() {
                0
            } else if data@.len() <= old(self)@.len() - off {
                data@.len() as int
            } else {
                old(self)@.len() - off
            },
            forall|i: int|
                0 <= i < final(self)@.len() ==> final(self)@[i] == if off <= i < off + n {
                    data@[i - off]
                } else {
                    old(self)@[i]
                },
    {
        let size: usize = self.mem.len();
        if off >= size {
            return 0;
        }
        let room: usize = size - off;
        let n: usize = if data.len() <= room {
            data.len()
        } else {
            room
        };
        let mut k: usize = 0;
        while k < n
            invariant
                k <= n,
                n <= data@.len(),
                off + n <= size,
                size == self.mem@.len(),
                size == old(self).mem@.len(),
                forall|i: int|
                    0 <= i < size ==> self.mem@[i] == if off <= i < off + k {
                        data@[i - off]
                    } else {
                        old(self).mem@[i]
                    },
            decreases n - k,
        {
            self.mem.set(off + k, data[k]);
            k = k + 1;
        }
        n
    }

    /// The little-endian value of `len` bytes at offset `off`.
    pub fn read(&self, off: u64, len: u64) -> (r: u64)
        requires
            len <= 8,
            off + len <= self@.len(),
        ensures
            r == read_le(self@, off as int, len as nat),
    {
        let size: usize = self.mem.len();
        let mut r: u64 = 0;
        let mut k: u64 = 0;
        while k < len
            invariant
                k <= len <= 8,
                size == self.mem@.len(),
                off + len <= size,
                r == read_le(self.mem@, off + len - k, k as nat),
            decreases len - k,
        {
            let at: u64 = off + (len - k - 1);
            let b: u8 = self.mem[at as usize];
            proof {
                lemma_read_le_bound(self.mem@, off + len - k, k as nat);
                lemma_byte_limit_monotonic(k as nat, 7);
                lemma_byte_limit_8();
                assert(byte_limit(8) == 256 * byte_limit(7));
                assert(at + 1 == off + len - k);
            }
            r = r * 256 + b as u64;
            k = k + 1;
        }
        r
    }

    /// Stores the low `len` bytes of `data` at offset `off`, least
    /// significant byte first.
    pub fn write(&mut self, off: u64, data: u64, len: u64)
        requires
            len <= 8,
            off + len <= old(self)@.len(),
        ensures
            final(self)@ == write_le(old(self)@, off as int, data as nat, len as nat),
            final(self)@.len() == old(self)@.len(),
    {
        let size: usize = self.mem.len();
        let mut d: u64 = data;
        let mut k: u64 = 0;
        while k < len
            invariant
                k <= len <= 8,
                size == self.mem@.len(),
                off + len <= size,
                self.mem@.len() == old(self).mem@.len(),
                write_le(old(self).mem@, off as int, data as nat, len as nat) == write_le(
                    self.mem@,
                    off + k,
                    d as nat,
                    (len - k) as nat,
                ),
            decreases len - k,
        {
            let at: u64 = off + k;
            proof {
                assert((len - k) as nat > 0);
                assert(((len - k) as nat - 1) as nat == (len - (k + 1)) as nat);
            }
            self.mem.set(at as usize, (d % 256) as u8);
            d = d / 256;
            k = k + 1;
        }
    }
}

} // verus!

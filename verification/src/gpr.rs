use vstd::prelude::*;

verus! {

/// The integer register file: thirty-two 64-bit registers, the first of
/// which is hard-wired to zero.
pub struct Gpr {
    regs: [u64; 32],
}

impl View for Gpr {
    type V = Seq<u64>;

    closed spec fn view(&self) -> Seq<u64> {
        Seq::new(32, |i: int| if i == 0 { 0u64 } else { self.regs@[i] })
    }
}

/// The register file that results from writing `val` to register `idx`.
pub open spec fn gpr_write(regs: Seq<u64>, idx: u64, val: u64) -> Seq<u64> {
    if 0 < idx < 32 {
        regs.update(idx as int, val)
    } else {
        regs
    }
}

/// The value that a read of register `idx` yields.
pub open spec fn gpr_read(regs: Seq<u64>, idx: u64) -> u64 {
    if 0 < idx < 32 {
        regs[idx as int]
    } else {
        0
    }
}

/// A register file is well formed when it has 32 entries and `x0` is zero.
pub open spec fn gpr_wf(regs: Seq<u64>) -> bool {
    regs.len() == 32 && regs[0] == 0
}

/// The name that the assembler gives register `i`.
pub open spec fn abi_name(i: int) -> Seq<char> {
    if i == 0 {
        "zero"@
    } else if i == 1 {
        "ra"@
    } else if i == 2 {
        "sp"@
    } else if i == 3 {
        "gp"@
    } else if i == 4 {
        "tp"@
    } else if i == 5 {
        "t0"@
    } else if i == 6 {
        "t1"@
    } else if i == 7 {
        "t2"@
    } else if i == 8 {
        "s0"@
    } else if i == 9 {
        "s1"@
    } else if i == 10 {
        "a0"@
    } else if i == 11 {
        "a1"@
    } else if i == 12 {
        "a2"@
    } else if i == 13 {
        "a3"@
    } else if i == 14 {
        "a4"@
    } else if i == 15 {
        "a5"@
    } else if i == 16 {
        "a6"@
    } else if i == 17 {
        "a7"@
    } else if i == 18 {
        "s2"@
    } else if i == 19 {
        "s3"@
    } else if i == 20 {
        "s4"@
    } else if i == 21 {
        "s5"@
    } else if i == 22 {
        "s6"@
    } else if i == 23 {
        "s7"@
    } else if i == 24 {
        "s8"@
    } else if i == 25 {
        "s9"@
    } else if i == 26 {
        "s10"@
    } else if i == 27 {
        "s11"@
    } else if i == 28 {
        "t3"@
    } else if i == 29 {
        "t4"@
    } else if i == 30 {
        "t5"@
    } else if i == 31 {
        "t6"@
    } else {
        Seq::empty()
    }
}

/// Whether `i` is the first register that the assembler calls `name`.
pub open spec fn is_register_name(name: Seq<char>, i: int) -> bool {
    &&& 0 <= i < 32
    &&& abi_name(i) == name
    &&& forall|j: int| 0 <= j < i ==> abi_name(j) != name
}

/// Whether two string slices hold the same characters.
fn str_eq(a: &str, b: &str) -> (r: bool)
    ensures
        r == (a@ == b@),
{
    let n: usize = a.unicode_len();
    if b.unicode_len() != n {
        return false;
    }
    let mut i: usize = 0;
    while i < n
        invariant
            i <= n,
            n == a@.len(),
            n == b@.len(),
            forall|k: int| 0 <= k < i ==> a@[k] == b@[k],
        decreases n - i,
    {
        if a.get_char(i) != b.get_char(i) {
            return false;
        }
        i = i + 1;
    }
    assert(a@ =~= b@);
    true
}

impl Gpr {
    /// The view of a register file always has 32 entries, the first of
    /// which is zero.
    pub proof fn lemma_wf(&self)
        ensures
            gpr_wf(self@),
    {
    }

    pub fn new() -> (g: Self)
        ensures
            g@ == Seq::new(32, |i: int| 0u64),
    {
        Gpr { regs: [0u64; 32] }
    }

    pub fn read(&self, idx: u64) -> (v: u64)
        ensures
            v == gpr_read(self@, idx),
    {
        if 0 < idx && idx < 32 {
            self.regs[idx as usize]
        } else {
            0
        }
    }

    pub fn write(&mut self, idx: u64, val: u64)
        ensures
            final(self)@ == gpr_write(old(self)@, idx, val),
    {
        if 0 < idx && idx < 32 {
            self.regs[idx as usize] = val;
        }
        assert(self@ =~= gpr_write(old(self)@, idx, val));
    }

    /// The number of the register that the assembler calls `name`, such
    /// as `a0` or `sp`.
    pub fn index_of_name(name: &str) -> (r: Option<u64>)
        ensures
            match r {
                Some(i) => is_register_name(name@, i as int),
                None => forall|j: int| 0 <= j < 32 ==> abi_name(j) != name@,
            },
    {
        let names: [&str; 32] = [
            "zero", "ra", "sp", "gp", "tp", "t0", "t1", "t2", "s0", "s1", "a0", "a1", "a2", "a3",
            "a4", "a5", "a6", "a7", "s2", "s3", "s4", "s5", "s6", "s7", "s8", "s9", "s10", "s11",
            "t3", "t4", "t5", "t6",
        ];
        let mut i: usize = 0;
        while i < 32
            invariant
                i <= 32,
                forall|j: int| 0 <= j < 32 ==> (#[trigger] names@[j])@ == abi_name(j),
                forall|j: int| 0 <= j < i ==> abi_name(j) != name@,
            decreases 32 - i,
        {
            if str_eq(names[i], name) {
                return Some(i as u64);
            }
            i = i + 1;
        }
        None
    }

    /// Reads the register that the assembler calls `name`; a name that
    /// names no register reads as zero.
    pub fn read_by_name(&self, name: &str) -> (v: u64)
        ensures
            forall|i: int| is_register_name(name@, i) ==> v == gpr_read(self@, i as u64),
            (forall|j: int| 0 <= j < 32 ==> abi_name(j) != name@) ==> v == 0,
    {
        match Self::index_of_name(name) {
            Some(i) => {
                assert forall|k: int| is_register_name(name@, k) implies k == i by {
                    if k < i {
                        assert(abi_name(k) != name@);
                    }
                    if i < k {
                        assert(abi_name(i as int) != name@);
                    }
                }
                self.read(i)
            },
            None => 0,
        }
    }
}

} // verus!

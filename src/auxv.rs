//! The auxiliary vector: the (tag, value) pairs that the kernel hands a new
//! process after its environment block.
use vstd::prelude::*;

verus! {

/// `AT_NULL`: ends the vector.
pub const AT_NULL: usize = 0;

/// `AT_PHDR`: the address of the program headers of the executable.
pub const AT_PHDR: usize = 3;

/// `AT_PHENT`: the size of one program header.
pub const AT_PHENT: usize = 4;

/// `AT_PHNUM`: the number of program headers.
pub const AT_PHNUM: usize = 5;

/// `AT_PAGESZ`: the page size.
pub const AT_PAGESZ: usize = 6;

/// `AT_HWCAP`: the first word of hardware capability bits.
pub const AT_HWCAP: usize = 16;

/// `AT_HWCAP2`: the second word of hardware capability bits.
pub const AT_HWCAP2: usize = 26;

/// `AT_EXECFN`: the address of the executable's file name.
pub const AT_EXECFN: usize = 31;

/// `AT_SYSINFO_EHDR`: the address of the vDSO's ELF header.
pub const AT_SYSINFO_EHDR: usize = 33;

/// The size of `Elf64_Phdr`, which `AT_PHENT` must report.
pub const ELF_PHDR_SIZE: usize = 56;

/// The index of the first `AT_NULL` pair of `pairs[i..]`, or its length.
pub open spec fn aux_end(pairs: Seq<(usize, usize)>, i: int) -> int
    decreases pairs.len() - i,
{
    if i >= pairs.len() {
        pairs.len() as int
    } else if pairs[i].0 == AT_NULL {
        i
    } else {
        aux_end(pairs, i + 1)
    }
}

/// The value of the last pair tagged `tag` among `pairs[0..n]`, or zero
/// where there is none.
pub open spec fn aux_value(pairs: Seq<(usize, usize)>, n: int, tag: usize) -> usize
    decreases n,
{
    if n <= 0 {
        0
    } else if pairs[n - 1].0 == tag {
        pairs[n - 1].1
    } else {
        aux_value(pairs, n - 1, tag)
    }
}

/// Among `pairs[0..n]`, some pair is tagged `AT_PHENT`, and each such pair
/// holds `ELF_PHDR_SIZE`.
pub open spec fn phent_ok(pairs: Seq<(usize, usize)>, n: int) -> bool {
    &&& exists|j: int| 0 <= j < n && pairs[j].0 == AT_PHENT
    &&& forall|j: int| 0 <= j < n && pairs[j].0 == AT_PHENT ==> pairs[j].1 == ELF_PHDR_SIZE
}

/// The vector ends with an `AT_NULL` pair, and the pairs before it report
/// the size of `Elf64_Phdr` as `AT_PHENT`.
pub open spec fn auxv_ok(pairs: Seq<(usize, usize)>) -> bool {
    aux_end(pairs, 0) < pairs.len() && phent_ok(pairs, aux_end(pairs, 0))
}

/// The facts that the auxiliary vector reports, as plain values.
pub struct AuxvView {
    pub page_size: usize,
    pub hwcap: usize,
    pub hwcap2: usize,
    pub sysinfo_ehdr: usize,
    pub phdr: usize,
    pub phnum: usize,
    pub execfn: usize,
}

/// What the pairs before the first `AT_NULL` report; a tag that is absent
/// reports zero.
pub open spec fn auxv_of(pairs: Seq<(usize, usize)>) -> AuxvView {
    let n = aux_end(pairs, 0);
    AuxvView {
        page_size: aux_value(pairs, n, AT_PAGESZ),
        hwcap: aux_value(pairs, n, AT_HWCAP),
        hwcap2: aux_value(pairs, n, AT_HWCAP2),
        sysinfo_ehdr: aux_value(pairs, n, AT_SYSINFO_EHDR),
        phdr: aux_value(pairs, n, AT_PHDR),
        phnum: aux_value(pairs, n, AT_PHNUM),
        execfn: aux_value(pairs, n, AT_EXECFN),
    }
}

/// Why an auxiliary vector cannot be used. Either way the process cannot go
/// on decoding kernel structures, and must stop.
#[derive(Clone, Copy, Debug, PartialEq, Eq, Structural)]
pub enum AuxvError {
    /// No `AT_NULL` pair ends the vector.
    Unterminated,
    /// `AT_PHENT` is absent, or reports another size than `Elf64_Phdr`'s.
    PhdrSizeMismatch,
}

/// The facts that the kernel reported in the auxiliary vector. They never
/// change once parsed, and there is no value before parsing.
#[derive(Clone, Copy, Debug)]
pub struct Auxv {
    page_size: usize,
    hwcap: usize,
    hwcap2: usize,
    sysinfo_ehdr: usize,
    phdr: usize,
    phnum: usize,
    execfn: usize,
}

impl View for Auxv {
    type V = AuxvView;

    closed spec fn view(&self) -> AuxvView {
        AuxvView {
            page_size: self.page_size,
            hwcap: self.hwcap,
            hwcap2: self.hwcap2,
            sysinfo_ehdr: self.sysinfo_ehdr,
            phdr: self.phdr,
            phnum: self.phnum,
            execfn: self.execfn,
        }
    }
}

impl Auxv {
    /// Checks an auxiliary vector before it is parsed: it must end with an
    /// `AT_NULL` pair, and before that report `AT_PHENT`, always with the size
    /// of `Elf64_Phdr`. A vector that fails this cannot be used, and the
    /// process must not go on.
    pub fn validate(pairs: &[(usize, usize)]) -> (r: Result<(), AuxvError>)
        ensures
            aux_end(pairs@, 0) == pairs@.len() ==> r == Err::<(), AuxvError>(
                AuxvError::Unterminated,
            ),
            aux_end(pairs@, 0) < pairs@.len() && !phent_ok(pairs@, aux_end(pairs@, 0)) ==> r
                == Err::<(), AuxvError>(AuxvError::PhdrSizeMismatch),
            r is Ok <==> auxv_ok(pairs@),
    {
        let mut phent_seen = false;
        let mut phent_bad = false;
        let mut i: usize = 0;
        while i < pairs.len() && pairs[i].0 != AT_NULL
            invariant
                0 <= i <= pairs@.len(),
                aux_end(pairs@, i as int) == aux_end(pairs@, 0),
                phent_seen == exists|j: int| 0 <= j < i && pairs@[j].0 == AT_PHENT,
                phent_bad == exists|j: int|
                    0 <= j < i && pairs@[j].0 == AT_PHENT && pairs@[j].1 != ELF_PHDR_SIZE,
            decreases pairs@.len() - i,
        {
            let (tag, val) = pairs[i];
            if tag == AT_PHENT {
                phent_seen = true;
                if val != ELF_PHDR_SIZE {
                    phent_bad = true;
                }
            }
            proof {
                assert(phent_seen == exists|j: int| 0 <= j < i + 1 && pairs@[j].0 == AT_PHENT) by {
                    if tag == AT_PHENT {
                        assert(pairs@[i as int].0 == AT_PHENT);
                    }
                }
                assert(phent_bad == exists|j: int|
                    0 <= j < i + 1 && pairs@[j].0 == AT_PHENT && pairs@[j].1 != ELF_PHDR_SIZE)
                    by {
                    if tag == AT_PHENT && val != ELF_PHDR_SIZE {
                        assert(pairs@[i as int].0 == AT_PHENT);
                    }
                }
            }
            i = i + 1;
        }
        if i == pairs.len() {
            return Err(AuxvError::Unterminated);
        }
        if !phent_seen || phent_bad {
            return Err(AuxvError::PhdrSizeMismatch);
        }
        Ok(())
    }

    /// Parses the pairs of a checked auxiliary vector up to its first
    /// `AT_NULL`. Unknown tags are skipped; where a tag comes twice, the later
    /// value counts; a tag that is absent reports zero.
    pub fn parse(pairs: &[(usize, usize)]) -> (r: Auxv)
        requires
            auxv_ok(pairs@),
        ensures
            r@ == auxv_of(pairs@),
    {
        let mut a = Auxv {
            page_size: 0,
            hwcap: 0,
            hwcap2: 0,
            sysinfo_ehdr: 0,
            phdr: 0,
            phnum: 0,
            execfn: 0,
        };
        let mut i: usize = 0;
        while i < pairs.len() && pairs[i].0 != AT_NULL
            invariant
                0 <= i <= pairs@.len(),
                aux_end(pairs@, i as int) == aux_end(pairs@, 0),
                a.page_size == aux_value(pairs@, i as int, AT_PAGESZ),
                a.hwcap == aux_value(pairs@, i as int, AT_HWCAP),
                a.hwcap2 == aux_value(pairs@, i as int, AT_HWCAP2),
                a.sysinfo_ehdr == aux_value(pairs@, i as int, AT_SYSINFO_EHDR),
                a.phdr == aux_value(pairs@, i as int, AT_PHDR),
                a.phnum == aux_value(pairs@, i as int, AT_PHNUM),
                a.execfn == aux_value(pairs@, i as int, AT_EXECFN),
            decreases pairs@.len() - i,
        {
            let (tag, val) = pairs[i];
            if tag == AT_PAGESZ {
                a.page_size = val;
            } else if tag == AT_HWCAP {
                a.hwcap = val;
            } else if tag == AT_HWCAP2 {
                a.hwcap2 = val;
            } else if tag == AT_SYSINFO_EHDR {
                a.sysinfo_ehdr = val;
            } else if tag == AT_PHDR {
                a.phdr = val;
            } else if tag == AT_PHNUM {
                a.phnum = val;
            } else if tag == AT_EXECFN {
                a.execfn = val;
            }
            i = i + 1;
        }
        a
    }

    /// The page size.
    pub fn page_size(&self) -> (r: usize)
        ensures
            r == self@.page_size,
    {
        self.page_size
    }

    /// The two words of hardware capability bits, `AT_HWCAP` and `AT_HWCAP2`.
    pub fn linux_hwcap(&self) -> (r: (usize, usize))
        ensures
            r == (self@.hwcap, self@.hwcap2),
    {
        (self.hwcap, self.hwcap2)
    }

    /// The address of the vDSO's ELF header.
    pub fn sysinfo_ehdr(&self) -> (r: usize)
        ensures
            r == self@.sysinfo_ehdr,
    {
        self.sysinfo_ehdr
    }

    /// The address and the number of the executable's program headers.
    pub fn exe_phdrs(&self) -> (r: (usize, usize))
        ensures
            r == (self@.phdr, self@.phnum),
    {
        (self.phdr, self.phnum)
    }

    /// The address of the executable's file name, a NUL-terminated string.
    pub fn execfn(&self) -> (r: usize)
        ensures
            r == self@.execfn,
    {
        self.execfn
    }
}

} // verus!

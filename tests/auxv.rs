use rsix::auxv::{
    Auxv, AuxvError, AT_EXECFN, AT_HWCAP, AT_HWCAP2, AT_NULL, AT_PAGESZ, AT_PHDR, AT_PHENT,
    AT_PHNUM, AT_SYSINFO_EHDR, ELF_PHDR_SIZE,
};
use linux_raw_sys::general as g;

fn sample() -> Vec<(usize, usize)> {
    vec![
        (AT_SYSINFO_EHDR, 0x7fff_0000),
        (AT_HWCAP, 0xbfeb_fbff),
        (AT_PAGESZ, 4096),
        (AT_PHDR, 0x5555_0040),
        (AT_PHENT, ELF_PHDR_SIZE),
        (AT_PHNUM, 13),
        (99, 12345),
        (AT_HWCAP2, 0x2),
        (AT_EXECFN, 0x7fff_1000),
        (AT_NULL, 0),
        (AT_PAGESZ, 65536),
    ]
}

#[test]
fn parses_known_tags() {
    assert_eq!(Auxv::validate(&sample()), Ok(()));
    let a = Auxv::parse(&sample());
    assert_eq!(a.page_size(), 4096);
    assert_eq!(a.linux_hwcap(), (0xbfeb_fbff, 0x2));
    assert_eq!(a.sysinfo_ehdr(), 0x7fff_0000);
    assert_eq!(a.exe_phdrs(), (0x5555_0040, 13));
    assert_eq!(a.execfn(), 0x7fff_1000);
}

#[test]
fn accessors_return_the_same_value_each_time() {
    let a = Auxv::parse(&sample());
    let b = Auxv::parse(&sample());
    for _ in 0..3 {
        assert_eq!(a.page_size(), 4096);
        assert_eq!(a.page_size(), b.page_size());
        assert_eq!(a.linux_hwcap(), b.linux_hwcap());
        assert_eq!(a.sysinfo_ehdr(), b.sysinfo_ehdr());
        assert_eq!(a.exe_phdrs(), b.exe_phdrs());
        assert_eq!(a.execfn(), b.execfn());
    }
}

#[test]
fn later_value_of_a_tag_wins_and_absent_tags_are_zero() {
    let pairs = vec![(AT_PAGESZ, 4096), (AT_PHENT, ELF_PHDR_SIZE), (AT_PAGESZ, 16384), (AT_NULL, 0)];
    assert_eq!(Auxv::validate(&pairs), Ok(()));
    let a = Auxv::parse(&pairs);
    assert_eq!(a.page_size(), 16384);
    assert_eq!(a.linux_hwcap(), (0, 0));
    assert_eq!(a.execfn(), 0);
}

#[test]
fn phdr_size_mismatch_is_refused() {
    let pairs = vec![(AT_PAGESZ, 4096), (AT_PHENT, 32), (AT_NULL, 0)];
    assert_eq!(Auxv::validate(&pairs).unwrap_err(), AuxvError::PhdrSizeMismatch);
    let twice = vec![(AT_PHENT, ELF_PHDR_SIZE), (AT_PHENT, 40), (AT_NULL, 0)];
    assert_eq!(Auxv::validate(&twice).unwrap_err(), AuxvError::PhdrSizeMismatch);
}

#[test]
fn missing_phdr_size_is_refused() {
    let pairs = vec![(AT_PAGESZ, 4096), (AT_NULL, 0), (AT_PHENT, ELF_PHDR_SIZE)];
    assert_eq!(Auxv::validate(&pairs).unwrap_err(), AuxvError::PhdrSizeMismatch);
}

#[test]
fn unterminated_vector_is_refused() {
    let pairs = vec![(AT_PAGESZ, 4096), (AT_PHENT, ELF_PHDR_SIZE)];
    assert_eq!(Auxv::validate(&pairs).unwrap_err(), AuxvError::Unterminated);
    assert_eq!(Auxv::validate(&[]).unwrap_err(), AuxvError::Unterminated);
}

#[test]
fn tags_match_kernel_headers() {
    assert_eq!(AT_NULL, g::AT_NULL as usize);
    assert_eq!(AT_PHDR, g::AT_PHDR as usize);
    assert_eq!(AT_PHENT, g::AT_PHENT as usize);
    assert_eq!(AT_PHNUM, g::AT_PHNUM as usize);
    assert_eq!(AT_PAGESZ, g::AT_PAGESZ as usize);
    assert_eq!(AT_HWCAP, g::AT_HWCAP as usize);
    assert_eq!(AT_HWCAP2, g::AT_HWCAP2 as usize);
    assert_eq!(AT_EXECFN, g::AT_EXECFN as usize);
    assert_eq!(AT_SYSINFO_EHDR, g::AT_SYSINFO_EHDR as usize);
}

use solv_marshal::repo::{
    flag_bits, REPO_EXTEND_SOLVABLES, REPO_LOCALPOOL, REPO_NO_INTERNALIZE, REPO_NO_LOCATION,
    REPO_REUSE_REPODATA, REPO_USE_LOADING, REPO_USE_ROOTDIR,
};
use solv_marshal::DistType;

#[test]
fn flags_have_their_native_values() {
    assert_eq!(REPO_REUSE_REPODATA, 1);
    assert_eq!(REPO_NO_INTERNALIZE, 2);
    assert_eq!(REPO_LOCALPOOL, 4);
    assert_eq!(REPO_USE_LOADING, 8);
    assert_eq!(REPO_EXTEND_SOLVABLES, 16);
    assert_eq!(REPO_USE_ROOTDIR, 32);
    assert_eq!(REPO_NO_LOCATION, 64);
}

#[test]
fn flags_are_distinct_bits() {
    let all = [
        REPO_REUSE_REPODATA,
        REPO_NO_INTERNALIZE,
        REPO_LOCALPOOL,
        REPO_USE_LOADING,
        REPO_EXTEND_SOLVABLES,
        REPO_USE_ROOTDIR,
        REPO_NO_LOCATION,
    ];
    let mut seen: i32 = 0;
    for flag in all {
        assert_eq!(flag.count_ones(), 1);
        assert_eq!(seen & flag, 0);
        seen |= flag;
    }
    assert_eq!(seen, 127);
}

#[test]
fn no_flags_chosen_means_zero() {
    assert_eq!(flag_bits(None), 0);
}

#[test]
fn chosen_flags_pass_unchanged() {
    assert_eq!(flag_bits(Some(0)), 0);
    assert_eq!(flag_bits(Some(REPO_LOCALPOOL | REPO_NO_LOCATION)), 68);
    assert_eq!(flag_bits(Some(-1)), -1);
    assert_eq!(flag_bits(Some(i32::MAX)), i32::MAX);
    assert_eq!(flag_bits(Some(i32::MIN)), i32::MIN);
}

#[test]
fn dist_types_have_their_native_codes() {
    assert_eq!(DistType::Rpm.code(), 0);
    assert_eq!(DistType::Deb.code(), 1);
    assert_eq!(DistType::Arch.code(), 2);
    assert_eq!(DistType::Haiku.code(), 3);
}

#[test]
fn dist_type_codes_agree_with_casts() {
    let all = [DistType::Rpm, DistType::Deb, DistType::Arch, DistType::Haiku];
    for kind in all {
        assert_eq!(kind.code(), kind as i32);
    }
}

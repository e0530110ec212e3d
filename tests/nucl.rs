use ensnano::nucl::Nucl;
use ensnano::rigid::FreeNucl;
use ensnano::utils::Extremity;

#[test]
fn complement_flips_direction_only() {
    let n = Nucl::new(3, -7, true);
    let c = n.compl();
    assert_eq!(c.helix, 3);
    assert_eq!(c.position, -7);
    assert!(!c.forward);
    assert_eq!(c.compl(), n);
    assert_ne!(c, n);
}

#[test]
fn complement_of_backward_nucl() {
    let n = Nucl::new(0, 0, false);
    assert_eq!(n.compl(), Nucl::new(0, 0, true));
    assert_eq!(n.compl().compl(), n);
}

#[test]
fn left_and_right_move_along_the_strand() {
    let n = Nucl::new(2, 10, false);
    assert_eq!(n.left(), Nucl::new(2, 9, false));
    assert_eq!(n.right(), Nucl::new(2, 11, false));
}

#[test]
fn extremity_queries() {
    assert!(Extremity::Prime3.is_3prime());
    assert!(!Extremity::Prime5.is_3prime());
    assert!(Extremity::Prime5.is_5prime());
    assert!(!Extremity::No.is_5prime());
    assert!(Extremity::Prime3.is_end());
    assert!(Extremity::Prime5.is_end());
    assert!(!Extremity::No.is_end());
    assert_eq!(Extremity::No.to_opt(), None);
    assert_eq!(Extremity::Prime3.to_opt(), Some(true));
    assert_eq!(Extremity::Prime5.to_opt(), Some(false));
}

#[test]
fn free_nucl_old_helix_is_xor() {
    let n = Nucl::new(4, 12, true);
    let rigid = FreeNucl::with_helix(&n, Some(1));
    assert_eq!(rigid.helix, Some(1));
    assert_eq!(rigid.old_helix, None);
    assert_eq!(rigid.position, 12);
    assert!(rigid.forward);
    let free = FreeNucl::with_helix(&n, None);
    assert_eq!(free.helix, None);
    assert_eq!(free.old_helix, Some(4));
}

use rustdemic::game::disease::{Disease, DiseaseKind, MAX_SPREAD};

#[test]
fn infection_rises_by_one() {
    let mut disease = Disease { spread: 0, kind: DiseaseKind::Blue };
    assert!(!disease.infect());
    assert_eq!(disease.spread, 1);
    assert!(!disease.infect());
    assert_eq!(disease.spread, 2);
    assert!(!disease.infect());
    assert_eq!(disease.spread, 3);
    assert_eq!(disease.kind, DiseaseKind::Blue);
}

#[test]
fn infection_at_the_cap_breaks_out_and_stays() {
    let mut disease = Disease { spread: 3, kind: DiseaseKind::Red };
    assert!(disease.infect());
    assert_eq!(disease.spread, 3);
    assert!(disease.infect());
    assert_eq!(disease.spread, 3);
}

#[test]
fn repeated_infection_never_passes_the_cap() {
    let mut disease = Disease { spread: 0, kind: DiseaseKind::Black };
    let mut outbreaks = 0;
    for _ in 0..10 {
        if disease.infect() {
            outbreaks += 1;
        }
        assert!(disease.spread <= MAX_SPREAD);
    }
    assert_eq!(disease.spread, 3);
    assert_eq!(outbreaks, 7);
}

#[test]
fn a_level_above_the_cap_is_brought_back() {
    let mut disease = Disease { spread: 200, kind: DiseaseKind::Yellow };
    assert!(disease.infect());
    assert_eq!(disease.spread, 3);
}

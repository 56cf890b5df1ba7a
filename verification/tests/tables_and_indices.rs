use icy_dwarf::compression::{compression_layers, planmat_index, planmat_order, Layer};
use icy_dwarf::cryolava::{calculate_seafloor, crust_base};
use icy_dwarf::orbit::resscreen;
use icy_dwarf::planet_system::{OutputSchedule, StepOutputs};
use icy_dwarf::tropf::{ratio_factorials, DissType};
use icy_dwarf::water_rock::{arrange_mol_mass, template_line, TemplateLine, NELTS, NVAR};

#[test]
fn test_ratio_factorials() {
    // (2+2)! / (2-2)! = 24 / 1 = 24
    assert_eq!(ratio_factorials(2, 2) as f64, 24.0);
    // (3+1)! / (3-1)! = 24 / 2 = 12
    assert_eq!(ratio_factorials(3, 1) as f64, 12.0);
    // (3+2)! / (3-2)! = 120 / 1 = 120
    assert_eq!(ratio_factorials(3, 2) as f64, 120.0);
}

#[test]
fn ratio_factorials_edges() {
    assert_eq!(ratio_factorials(7, 0), 1);
    assert_eq!(ratio_factorials(0, 0), 1);
    assert_eq!(ratio_factorials(1, 1), 2);
    assert_eq!(ratio_factorials(5, 3), 3 * 4 * 5 * 6 * 7 * 8);
    // multiplied by (n - s)! it gives (n + s)!
    assert_eq!(ratio_factorials(6, 2) * 24, 40320);
    let _ = DissType::KinPE;
}

#[test]
fn planmat_index_finds_entries() {
    let keys = [101usize, 206, 305, 402, 403, 412];
    assert_eq!(planmat_index(&keys, 206), Some(1));
    assert_eq!(planmat_index(&keys, 101), Some(0));
    assert_eq!(planmat_index(&keys, 412), Some(5));
    assert_eq!(planmat_index(&keys, 404), None);
    assert_eq!(planmat_index(&keys, 1), None);
    assert_eq!(planmat_index(&keys, 999), None);
    assert_eq!(planmat_index(&[], 3), None);
    let dup = [1usize, 2, 2, 2, 3];
    let i = planmat_index(&dup, 2).unwrap();
    assert_eq!(dup[i], 2);
}

#[test]
fn planmat_order_sorts_entry_lines() {
    // Four header lines, then entry lines (4, 6, 8, ...) alternating with name lines.
    let keys = vec![
        None,
        None,
        None,
        None,
        Some(403),
        Some(1),
        Some(206),
        Some(2),
        None,
        Some(3),
        Some(101),
        None,
        Some(206),
    ];
    assert_eq!(planmat_order(&keys), vec![10, 6, 12, 4]);
    assert_eq!(planmat_order(&vec![Some(1), Some(2)]), Vec::<usize>::new());
}

#[test]
fn compression_layers_partition() {
    let (i, o, m) = (Layer::InnerCore, Layer::OuterCore, Layer::Mantle);
    assert_eq!(compression_layers(2, 4, 6), vec![i, i, i, o, o, m, m]);
    assert_eq!(compression_layers(0, 3, 4), vec![i, o, o, o, m]);
    assert_eq!(compression_layers(0, 0, 2), vec![o, m, m]);
    assert_eq!(compression_layers(3, 1, 4), vec![i, i, m, m, m]);
}

#[test]
fn resscreen_keeps_lowest_order() {
    let mut acct = vec![9u32; 4];
    resscreen(&[0, 3, 2, 4], &mut acct, &[0, 0, 0, 0]);
    assert_eq!(acct, vec![0, 0, 2, 0]);

    // two resonances of the lowest order: only the one already in place stays
    let mut acct = vec![0u32; 4];
    resscreen(&[2, 0, 2, 3], &mut acct, &[0, 0, 2, 0]);
    assert_eq!(acct, vec![0, 0, 2, 0]);

    // two of the lowest order, both new: none stays
    let mut acct = vec![0u32; 3];
    resscreen(&[1, 1, 0], &mut acct, &[0, 0, 0]);
    assert_eq!(acct, vec![0, 0, 0]);

    // no resonance at all; the extra entry is cleared too
    let mut acct = vec![5u32; 3];
    resscreen(&[0, 0], &mut acct, &[0, 0]);
    assert_eq!(acct, vec![0, 0, 0]);
}

#[test]
fn output_schedule_cadence() {
    let mut s = OutputSchedule::new(20);
    let mut full = 0;
    let mut orbit = 0;
    for step in 1..=60 {
        let StepOutputs { orbit: o, full: f } = s.tick();
        if f {
            full += 1;
            assert_eq!(step % 20, 0);
        }
        if o {
            orbit += 1;
        }
    }
    assert_eq!(full, 3);
    assert_eq!(orbit, 30);

    let mut small = OutputSchedule::new(3);
    let r: Vec<StepOutputs> = (0..3).map(|_| small.tick()).collect();
    assert!(r.iter().all(|o| o.orbit));
    assert_eq!(r.iter().filter(|o| o.full).count(), 1);
    assert!(r[2].full);

    let mut none = OutputSchedule::new(0);
    for _ in 0..5 {
        assert!(!none.tick().full);
    }
    assert_eq!(none.isteps, 5);
}

#[test]
fn mol_mass_layout() {
    let read: Vec<Vec<u32>> = (0..400u32).map(|k| vec![k; NELTS]).collect();
    let m = arrange_mol_mass(&read, u32::MAX);
    assert_eq!(m.len(), NVAR);
    assert!(m.iter().all(|r| r.len() == NELTS));
    assert_eq!(m[0][0], 0);
    assert_eq!(m[1][5], u32::MAX);
    assert_eq!(m[255][0], u32::MAX);
    assert_eq!(m[256][3], 0);
    assert_eq!(m[257][3], 0);
    assert_eq!(m[258][3], 1);
    assert_eq!(m[1003][30], 373);
    assert_eq!(m[1004][0], u32::MAX);
    assert_eq!(m[1008][0], u32::MAX);
    assert_eq!(m[1009][0], 374);
    assert_eq!(m[1023][0], 388);
    let floats: Vec<Vec<f64>> = (0..389).map(|k| vec![k as f64 * 0.5; NELTS]).collect();
    let mf = arrange_mol_mass(&floats, 0.0);
    assert_eq!(mf[260][1], 1.0);
}

#[test]
fn phreeqc_template_lines() {
    assert_eq!(template_line(5, "anything"), TemplateLine::Ph);
    assert_eq!(template_line(6, "-temp 25"), TemplateLine::Temp);
    assert_eq!(template_line(7, ""), TemplateLine::Pressure);
    assert_eq!(template_line(8, ""), TemplateLine::Pe);
    assert_eq!(template_line(9, ""), TemplateLine::Water);
    assert_eq!(template_line(12, "\t -pressure 1"), TemplateLine::PressureOption);
    assert_eq!(template_line(13, "-temperature 25"), TemplateLine::TemperatureOption);
    assert_eq!(template_line(14, "REACTION 1"), TemplateLine::Keep);
    assert_eq!(template_line(4, "-pre"), TemplateLine::Keep);
    assert_eq!(template_line(1, "x -pres"), TemplateLine::Keep);
}

#[test]
fn seafloor_and_crust() {
    assert_eq!(calculate_seafloor(&[true, true, false, false], 4), 1);
    assert_eq!(calculate_seafloor(&[false, true], 2), -1);
    assert_eq!(calculate_seafloor(&[true, true, true], 3), 2);
    assert_eq!(calculate_seafloor(&[true, false], 5), 0);
    let rock = [true, true, false, false, true, false, true, true];
    assert_eq!(crust_base(&rock, 8, 1), 5);
    assert_eq!(crust_base(&rock, 6, 1), 3);
    assert_eq!(crust_base(&[true, true, true, true, true], 5, 0), 3);
    assert_eq!(crust_base(&[true, false, true, true], 4, 1), 2);
}

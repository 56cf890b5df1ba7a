use icy_dwarf::args::Args;
use icy_dwarf::input::{
    ChondriteSetting, ChondriteType, CodeOrName, CoreCrack, CoreCrackDissol, EccModel,
    Housekeeping, QMode, SettingError, TidalModel,
};

#[test]
fn qmode_codes() {
    assert_eq!(QMode::try_from(0u8), Ok(QMode::Lin));
    assert_eq!(QMode::try_from(1u8), Ok(QMode::ExpDecay));
    assert_eq!(QMode::try_from(2u8), Ok(QMode::ExpChange));
    assert_eq!(QMode::try_from(3u8), Err(3u8));
    assert_eq!(QMode::try_from(255u8), Err(255u8));
}

#[test]
fn qmode_names() {
    assert_eq!(QMode::try_from("linear"), Ok(QMode::Lin));
    assert_eq!(QMode::try_from("  LIN\t"), Ok(QMode::Lin));
    assert_eq!(QMode::try_from("Exponential Decay"), Ok(QMode::ExpDecay));
    assert_eq!(QMode::try_from("expdecay"), Ok(QMode::ExpDecay));
    assert_eq!(QMode::try_from("decay"), Ok(QMode::ExpDecay));
    assert_eq!(QMode::try_from("ExpChange\n"), Ok(QMode::ExpChange));
    assert_eq!(QMode::try_from("exponential change"), Ok(QMode::ExpChange));
    assert_eq!(QMode::try_from(" lineal "), Err(" lineal ".to_string()));
    assert_eq!(QMode::try_from("exponential  decay"), Err("exponential  decay".to_string()));
}

#[test]
fn qmode_settings_from_readme() {
    assert_eq!(QMode::from_setting(CodeOrName::S("linear".to_string())).ok(), Some(QMode::Lin));
    assert_eq!(QMode::from_setting(CodeOrName::Int(0)).ok(), Some(QMode::Lin));
    assert_eq!(QMode::from_setting(CodeOrName::S("decay".to_string())).ok(), Some(QMode::ExpDecay));
    assert_eq!(QMode::from_setting(CodeOrName::Int(1)).ok(), Some(QMode::ExpDecay));
    assert_eq!(
        QMode::from_setting(CodeOrName::S("expchange".to_string())).ok(),
        Some(QMode::ExpChange)
    );
    assert_eq!(QMode::from_setting(CodeOrName::Int(2)).ok(), Some(QMode::ExpChange));
    assert!(matches!(
        QMode::from_setting(CodeOrName::Int(7)),
        Err(SettingError::InvalidCode(7))
    ));
    match QMode::from_setting(CodeOrName::S("quadratic".to_string())) {
        Err(SettingError::InvalidName(s)) => assert_eq!(s, "quadratic"),
        other => panic!("unexpected {:?}", other),
    }
}

#[test]
fn ecc_model_codes_and_names() {
    assert_eq!(EccModel::try_from(0u8), Ok(EccModel::E2));
    assert_eq!(EccModel::try_from(1u8), Ok(EccModel::E10Cpl));
    assert_eq!(EccModel::try_from(2u8), Ok(EccModel::E10Ctl));
    assert_eq!(EccModel::try_from(3u8), Err(3u8));
    assert_eq!(EccModel::try_from("Second-Order"), Ok(EccModel::E2));
    assert_eq!(EccModel::try_from("e2"), Ok(EccModel::E2));
    assert_eq!(EccModel::try_from("ecc2"), Ok(EccModel::E2));
    assert_eq!(EccModel::try_from("coupled tenth-order"), Ok(EccModel::E10Cpl));
    assert_eq!(EccModel::try_from(" E10CPL "), Ok(EccModel::E10Cpl));
    assert_eq!(EccModel::try_from("ecc10_cpl"), Ok(EccModel::E10Cpl));
    assert_eq!(EccModel::try_from("time-lag tenth-order"), Ok(EccModel::E10Ctl));
    assert_eq!(EccModel::try_from("e10ctl"), Ok(EccModel::E10Ctl));
    assert_eq!(EccModel::try_from("ECC10_CTL"), Ok(EccModel::E10Ctl));
    assert_eq!(EccModel::try_from("e4"), Err("e4".to_string()));
}

#[test]
fn ecc_model_settings_from_readme() {
    assert_eq!(EccModel::from_setting(CodeOrName::S("e2".to_string())).ok(), Some(EccModel::E2));
    assert_eq!(EccModel::from_setting(CodeOrName::Int(0)).ok(), Some(EccModel::E2));
    assert_eq!(
        EccModel::from_setting(CodeOrName::S("e10cpl".to_string())).ok(),
        Some(EccModel::E10Cpl)
    );
    assert_eq!(EccModel::from_setting(CodeOrName::Int(1)).ok(), Some(EccModel::E10Cpl));
    assert_eq!(
        EccModel::from_setting(CodeOrName::S("e10ctl".to_string())).ok(),
        Some(EccModel::E10Ctl)
    );
    assert_eq!(EccModel::from_setting(CodeOrName::Int(2)).ok(), Some(EccModel::E10Ctl));
    assert!(matches!(
        EccModel::from_setting(CodeOrName::Int(9)),
        Err(SettingError::InvalidCode(9))
    ));
    assert!(matches!(
        EccModel::from_setting(CodeOrName::S("tenth".to_string())),
        Err(SettingError::InvalidName(_))
    ));
}

#[test]
fn chondrite_names() {
    assert_eq!(ChondriteType::from_string("CI"), Some(ChondriteType::CI));
    assert_eq!(ChondriteType::from_string(" chondr_i "), Some(ChondriteType::CI));
    assert_eq!(ChondriteType::from_string("Ivuna"), Some(ChondriteType::CI));
    assert_eq!(ChondriteType::from_string("co"), Some(ChondriteType::CO));
    assert_eq!(ChondriteType::from_string("CHONDR_O"), Some(ChondriteType::CO));
    assert_eq!(ChondriteType::from_string("orans\t"), Some(ChondriteType::CO));
    assert_eq!(ChondriteType::from_string("cv"), None);
    assert_eq!(ChondriteType::from_string(""), None);
}

#[test]
fn chondrite_settings_from_readme() {
    let ok = |s: ChondriteSetting| ChondriteType::from_setting(s).ok();
    assert_eq!(ok(ChondriteSetting::S("CI".to_string())), Some(ChondriteType::CI));
    assert_eq!(ok(ChondriteSetting::Int(0)), Some(ChondriteType::CI));
    assert_eq!(ok(ChondriteSetting::Bool(false)), Some(ChondriteType::CI));
    assert_eq!(ok(ChondriteSetting::S("CO".to_string())), Some(ChondriteType::CO));
    assert_eq!(ok(ChondriteSetting::Int(1)), Some(ChondriteType::CO));
    assert_eq!(ok(ChondriteSetting::Int(2)), Some(ChondriteType::CO));
    assert_eq!(ok(ChondriteSetting::Bool(true)), Some(ChondriteType::CO));
    assert!(matches!(
        ChondriteType::from_setting(ChondriteSetting::Int(3)),
        Err(SettingError::InvalidCode(3))
    ));
    match ChondriteType::from_setting(ChondriteSetting::S("CM".to_string())) {
        Err(SettingError::InvalidName(s)) => assert_eq!(s, "CM"),
        other => panic!("unexpected {:?}", other),
    }
}

#[test]
fn tidal_model_names_and_codes() {
    assert_eq!(TidalModel::from_str("maxwell"), Some(TidalModel::Maxwell));
    assert_eq!(TidalModel::from_str("MAXWELL"), Some(TidalModel::Maxwell));
    assert_eq!(TidalModel::from_str(" Burgers "), Some(TidalModel::Burgers));
    assert_eq!(TidalModel::from_str("Andr"), Some(TidalModel::Andr));
    assert_eq!(TidalModel::from_str("ANDRADE"), Some(TidalModel::Andr));
    assert_eq!(TidalModel::from_str("suncoop"), Some(TidalModel::SunCoop));
    assert_eq!(TidalModel::from_str("Sundberg-Cooper"), Some(TidalModel::SunCoop));
    assert_eq!(TidalModel::from_str("kelvin"), None);
    assert_eq!(TidalModel::from_lowercase(" maxwell\n"), Some(TidalModel::Maxwell));
    assert_eq!(TidalModel::from_lowercase("MAXWELL"), None);
    assert_eq!(TidalModel::Maxwell.code(), 2);
    assert_eq!(TidalModel::Burgers.code(), 3);
    assert_eq!(TidalModel::Andr.code(), 4);
    assert_eq!(TidalModel::SunCoop.code(), 5);
}

#[test]
fn tidal_model_settings_from_readme() {
    let ok = |s: CodeOrName| TidalModel::from_setting(s).ok();
    assert_eq!(ok(CodeOrName::S("maxwell".to_string())), Some(TidalModel::Maxwell));
    assert_eq!(ok(CodeOrName::Int(2)), Some(TidalModel::Maxwell));
    assert_eq!(ok(CodeOrName::S("burgers".to_string())), Some(TidalModel::Burgers));
    assert_eq!(ok(CodeOrName::Int(3)), Some(TidalModel::Burgers));
    assert_eq!(ok(CodeOrName::S("andr".to_string())), Some(TidalModel::Andr));
    assert_eq!(ok(CodeOrName::Int(4)), Some(TidalModel::Andr));
    assert_eq!(ok(CodeOrName::S("suncoop".to_string())), Some(TidalModel::SunCoop));
    assert_eq!(ok(CodeOrName::Int(5)), Some(TidalModel::SunCoop));
    for n in [0u8, 1, 6, 200] {
        assert!(matches!(
            TidalModel::from_setting(CodeOrName::Int(n)),
            Err(SettingError::InvalidCode(c)) if c == n
        ));
    }
    assert!(matches!(
        TidalModel::from_setting(CodeOrName::S("elastic".to_string())),
        Err(SettingError::InvalidName(_))
    ));
}

#[test]
fn flag_groups() {
    let h = Housekeeping { warnings: true, recover: false };
    assert!(h.warnings && !h.recover);
    let c = CoreCrack {
        incl_therm_mismatch: true,
        incl_pore: false,
        incl_hydr: true,
        incl_dissol: false,
        dissol: CoreCrackDissol { of_silica: true, of_serp: false, of_carb: true },
    };
    assert_eq!(c, c.clone());
    assert!(c.dissol.of_silica && !c.dissol.of_serp && c.dissol.of_carb);
}

#[test]
fn data_paths() {
    let args = Args {
        input_path: "inputs/input.toml".to_string(),
        output_folder: "Outputs".to_string(),
        data_folder: "Data".to_string(),
    };
    assert_eq!(args.data_path("Crack_aTP.txt"), "Data/Crack_aTP.txt");
    assert_eq!(args.data_path("/abs/file.txt"), "/abs/file.txt");
    assert_eq!(args.data_path(""), "Data/");
    let slash = Args { data_folder: "Data/".to_string(), ..args.clone() };
    assert_eq!(slash.data_path("x.txt"), "Data/x.txt");
    let empty = Args { data_folder: String::new(), ..args };
    assert_eq!(empty.data_path("x.txt"), "x.txt");
    assert_eq!(
        std::path::PathBuf::from("Data").join("Crack_aTP.txt").to_str().unwrap(),
        "Data/Crack_aTP.txt"
    );
}

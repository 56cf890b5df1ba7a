//! Input settings of a simulation run: model selectors, their integer codes and names,
//! and the flag groups of the configuration file.

use vstd::prelude::*;
use vstd::std_specs::convert::TryFromSpecImpl;
use crate::text::{
    ascii_lower, ascii_lower_char, chars_eq, chars_of, is_white_space, lower_trimmed, trim,
    trim_end, trim_start, trimmed,
};

verus! {

/// A model selector as it may be written in the configuration file:
/// an integer code or a name.
#[derive(Debug, Clone)]
pub enum CodeOrName {
    /// An integer code.
    Int(u8),
    /// A name.
    S(String),
}

/// A chondrite selector as it may be written in the configuration file:
/// a boolean, an integer code or a name.
#[derive(Debug, Clone)]
pub enum ChondriteSetting {
    /// `false` selects CI, `true` selects CO.
    Bool(bool),
    /// An integer code.
    Int(u8),
    /// A name.
    S(String),
}

/// Why a model selector was refused.
#[derive(Debug, Clone)]
pub enum SettingError {
    /// The integer code names no model.
    InvalidCode(u8),
    /// The name names no model.
    InvalidName(String),
}

/// Dissipation factor mode.
#[derive(Debug, Clone, Copy, PartialEq, Eq, Structural)]
pub enum QMode {
    /// Linear dissipation mode.
    Lin,
    /// Exponential decay mode.
    ExpDecay,
    /// Exponential change mode.
    ExpChange,
}

impl QMode {
    /// The integer code of the mode.
    pub open spec fn code_of(self) -> u8 {
        match self {
            QMode::Lin => 0,
            QMode::ExpDecay => 1,
            QMode::ExpChange => 2,
        }
    }

    /// The mode with integer code `value`, or `value` itself when no mode has it.
    pub open spec fn from_code_spec(value: u8) -> Result<QMode, u8> {
        if value == 0 {
            Ok(QMode::Lin)
        } else if value == 1 {
            Ok(QMode::ExpDecay)
        } else if value == 2 {
            Ok(QMode::ExpChange)
        } else {
            Err(value)
        }
    }

    /// The mode named by `t`, a lower-case name without surrounding white space.
    pub open spec fn from_name_spec(t: Seq<char>) -> Option<QMode> {
        if t == "linear"@ || t == "lin"@ {
            Some(QMode::Lin)
        } else if t == "decay"@ || t == "expdecay"@ || t == "exponential decay"@ {
            Some(QMode::ExpDecay)
        } else if t == "expchange"@ || t == "exponential change"@ {
            Some(QMode::ExpChange)
        } else {
            None
        }
    }

    /// The mode named by the normalized characters `t`.
    fn from_normalized(t: &Vec<char>) -> (r: Option<QMode>)
        ensures
            r == QMode::from_name_spec(t@),
    {
        if chars_eq(t, "linear") || chars_eq(t, "lin") {
            Some(QMode::Lin)
        } else if chars_eq(t, "decay") || chars_eq(t, "expdecay") || chars_eq(t, "exponential decay") {
            Some(QMode::ExpDecay)
        } else if chars_eq(t, "expchange") || chars_eq(t, "exponential change") {
            Some(QMode::ExpChange)
        } else {
            None
        }
    }

    /// Decide a configuration value: an integer code or a name.
    pub fn from_setting(input: CodeOrName) -> (r: Result<QMode, SettingError>)
        ensures
            match input {
                CodeOrName::Int(n) => match QMode::from_code_spec(n) {
                    Ok(m) => r == Ok::<QMode, SettingError>(m),
                    Err(_) => r matches Err(SettingError::InvalidCode(c)) && c == n,
                },
                CodeOrName::S(s) => match QMode::from_name_spec(trim(ascii_lower(s@))) {
                    Some(m) => r == Ok::<QMode, SettingError>(m),
                    None => r matches Err(SettingError::InvalidName(e)) && e@ == s@,
                },
            },
    {
        match input {
            CodeOrName::Int(n) => match QMode::try_from(n) {
                Ok(m) => Ok(m),
                Err(v) => Err(SettingError::InvalidCode(v)),
            },
            CodeOrName::S(s) => match QMode::try_from(s.as_str()) {
                Ok(m) => Ok(m),
                Err(e) => Err(SettingError::InvalidName(e)),
            },
        }
    }
}

impl Default for QMode {
    fn default() -> (r: QMode)
        ensures
            r == QMode::Lin,
    {
        QMode::Lin
    }
}

impl TryFrom<u8> for QMode {
    type Error = u8;

    fn try_from(value: u8) -> (r: Result<QMode, u8>) {
        if value == 0 {
            Ok(QMode::Lin)
        } else if value == 1 {
            Ok(QMode::ExpDecay)
        } else if value == 2 {
            Ok(QMode::ExpChange)
        } else {
            Err(value)
        }
    }
}

impl TryFromSpecImpl<u8> for QMode {
    open spec fn obeys_try_from_spec() -> bool {
        true
    }

    open spec fn try_from_spec(v: u8) -> Result<QMode, u8> {
        QMode::from_code_spec(v)
    }
}

impl<'a> TryFrom<&'a str> for QMode {
    type Error = String;

    fn try_from(value: &'a str) -> (r: Result<QMode, String>)
        ensures
            match QMode::from_name_spec(trim(ascii_lower(value@))) {
                Some(m) => r == Ok::<QMode, String>(m),
                None => r matches Err(e) && e@ == value@,
            },
    {
        let t = lower_trimmed(value);
        match QMode::from_normalized(&t) {
            Some(m) => Ok(m),
            None => Err(value.to_owned()),
        }
    }
}

impl<'a> TryFromSpecImpl<&'a str> for QMode {
    open spec fn obeys_try_from_spec() -> bool {
        false
    }

    open spec fn try_from_spec(v: &'a str) -> Result<QMode, String> {
        match QMode::from_name_spec(trim(ascii_lower(v@))) {
            Some(m) => Ok(m),
            None => Err(arbitrary()),
        }
    }
}

/// Orbital eccentricity model.
#[derive(Debug, Clone, Copy, PartialEq, Eq, Structural)]
pub enum EccModel {
    /// Standard second-order eccentricity model.
    E2,
    /// Coupled tenth-order eccentricity model.
    E10Cpl,
    /// Constant time-lag tenth-order eccentricity model.
    E10Ctl,
}

impl EccModel {
    /// The integer code of the model.
    pub open spec fn code_of(self) -> u8 {
        match self {
            EccModel::E2 => 0,
            EccModel::E10Cpl => 1,
            EccModel::E10Ctl => 2,
        }
    }

    /// The model with integer code `value`, or `value` itself when no model has it.
    pub open spec fn from_code_spec(value: u8) -> Result<EccModel, u8> {
        if value == 0 {
            Ok(EccModel::E2)
        } else if value == 1 {
            Ok(EccModel::E10Cpl)
        } else if value == 2 {
            Ok(EccModel::E10Ctl)
        } else {
            Err(value)
        }
    }

    /// The model named by `t`, a lower-case name without surrounding white space.
    pub open spec fn from_name_spec(t: Seq<char>) -> Option<EccModel> {
        if t == "second-order"@ || t == "e2"@ || t == "ecc2"@ {
            Some(EccModel::E2)
        } else if t == "coupled tenth-order"@ || t == "e10cpl"@ || t == "ecc10_cpl"@ {
            Some(EccModel::E10Cpl)
        } else if t == "time-lag tenth-order"@ || t == "e10ctl"@ || t == "ecc10_ctl"@ {
            Some(EccModel::E10Ctl)
        } else {
            None
        }
    }

    /// The model named by the normalized characters `t`.
    fn from_normalized(t: &Vec<char>) -> (r: Option<EccModel>)
        ensures
            r == EccModel::from_name_spec(t@),
    {
        if chars_eq(t, "second-order") || chars_eq(t, "e2") || chars_eq(t, "ecc2") {
            Some(EccModel::E2)
        } else if chars_eq(t, "coupled tenth-order") || chars_eq(t, "e10cpl") || chars_eq(
            t,
            "ecc10_cpl",
        ) {
            Some(EccModel::E10Cpl)
        } else if chars_eq(t, "time-lag tenth-order") || chars_eq(t, "e10ctl") || chars_eq(
            t,
            "ecc10_ctl",
        ) {
            Some(EccModel::E10Ctl)
        } else {
            None
        }
    }

    /// Decide a configuration value: an integer code or a name.
    pub fn from_setting(input: CodeOrName) -> (r: Result<EccModel, SettingError>)
        ensures
            match input {
                CodeOrName::Int(n) => match EccModel::from_code_spec(n) {
                    Ok(m) => r == Ok::<EccModel, SettingError>(m),
                    Err(_) => r matches Err(SettingError::InvalidCode(c)) && c == n,
                },
                CodeOrName::S(s) => match EccModel::from_name_spec(trim(ascii_lower(s@))) {
                    Some(m) => r == Ok::<EccModel, SettingError>(m),
                    None => r matches Err(SettingError::InvalidName(e)) && e@ == s@,
                },
            },
    {
        match input {
            CodeOrName::Int(n) => match EccModel::try_from(n) {
                Ok(m) => Ok(m),
                Err(v) => Err(SettingError::InvalidCode(v)),
            },
            CodeOrName::S(s) => match EccModel::try_from(s.as_str()) {
                Ok(m) => Ok(m),
                Err(e) => Err(SettingError::InvalidName(e)),
            },
        }
    }
}

impl Default for EccModel {
    fn default() -> (r: EccModel)
        ensures
            r == EccModel::E2,
    {
        EccModel::E2
    }
}

impl TryFrom<u8> for EccModel {
    type Error = u8;

    fn try_from(value: u8) -> (r: Result<EccModel, u8>) {
        if value == 0 {
            Ok(EccModel::E2)
        } else if value == 1 {
            Ok(EccModel::E10Cpl)
        } else if value == 2 {
            Ok(EccModel::E10Ctl)
        } else {
            Err(value)
        }
    }
}

impl TryFromSpecImpl<u8> for EccModel {
    open spec fn obeys_try_from_spec() -> bool {
        true
    }

    open spec fn try_from_spec(v: u8) -> Result<EccModel, u8> {
        EccModel::from_code_spec(v)
    }
}

impl<'a> TryFrom<&'a str> for EccModel {
    type Error = String;

    fn try_from(value: &'a str) -> (r: Result<EccModel, String>)
        ensures
            match EccModel::from_name_spec(trim(ascii_lower(value@))) {
                Some(m) => r == Ok::<EccModel, String>(m),
                None => r matches Err(e) && e@ == value@,
            },
    {
        let t = lower_trimmed(value);
        match EccModel::from_normalized(&t) {
            Some(m) => Ok(m),
            None => Err(value.to_owned()),
        }
    }
}

impl<'a> TryFromSpecImpl<&'a str> for EccModel {
    open spec fn obeys_try_from_spec() -> bool {
        false
    }

    open spec fn try_from_spec(v: &'a str) -> Result<EccModel, String> {
        match EccModel::from_name_spec(trim(ascii_lower(v@))) {
            Some(m) => Ok(m),
            None => Err(arbitrary()),
        }
    }
}

/// Type of chondrite material.
#[derive(Debug, Clone, Copy, PartialEq, Eq, Structural)]
pub enum ChondriteType {
    /// Carbonaceous Ivuna chondrite type.
    CI,
    /// Carbonaceous Ornans chondrite type.
    CO,
}

impl ChondriteType {
    /// The chondrite type named by `t`, a lower-case name without surrounding white space.
    pub open spec fn from_name_spec(t: Seq<char>) -> Option<ChondriteType> {
        if t == "ci"@ || t == "chondr_i"@ || t == "ivuna"@ {
            Some(ChondriteType::CI)
        } else if t == "co"@ || t == "chondr_o"@ || t == "orans"@ {
            Some(ChondriteType::CO)
        } else {
            None
        }
    }

    /// The chondrite type with integer code `n`: 0 is CI, 1 and 2 are CO.
    pub open spec fn from_code_spec(n: u8) -> Option<ChondriteType> {
        if n == 0 {
            Some(ChondriteType::CI)
        } else if n == 1 || n == 2 {
            Some(ChondriteType::CO)
        } else {
            None
        }
    }

    /// The chondrite type named by `s`, ignoring ASCII case and surrounding white space.
    pub fn from_string(s: &str) -> (r: Option<ChondriteType>)
        ensures
            r == ChondriteType::from_name_spec(trim(ascii_lower(s@))),
    {
        let t = lower_trimmed(s);
        if chars_eq(&t, "ci") || chars_eq(&t, "chondr_i") || chars_eq(&t, "ivuna") {
            Some(ChondriteType::CI)
        } else if chars_eq(&t, "co") || chars_eq(&t, "chondr_o") || chars_eq(&t, "orans") {
            Some(ChondriteType::CO)
        } else {
            None
        }
    }

    /// Decide a configuration value: a boolean, an integer code or a name.
    pub fn from_setting(input: ChondriteSetting) -> (r: Result<ChondriteType, SettingError>)
        ensures
            match input {
                ChondriteSetting::Bool(b) => r == Ok::<ChondriteType, SettingError>(
                    if b { ChondriteType::CO } else { ChondriteType::CI },
                ),
                ChondriteSetting::Int(n) => match ChondriteType::from_code_spec(n) {
                    Some(c) => r == Ok::<ChondriteType, SettingError>(c),
                    None => r matches Err(SettingError::InvalidCode(c)) && c == n,
                },
                ChondriteSetting::S(s) => match ChondriteType::from_name_spec(
                    trim(ascii_lower(s@)),
                ) {
                    Some(c) => r == Ok::<ChondriteType, SettingError>(c),
                    None => r matches Err(SettingError::InvalidName(e)) && e@ == s@,
                },
            },
    {
        match input {
            ChondriteSetting::Bool(b) => Ok(
                if b {
                    ChondriteType::CO
                } else {
                    ChondriteType::CI
                },
            ),
            ChondriteSetting::Int(n) => {
                if n == 0 {
                    Ok(ChondriteType::CI)
                } else if n == 1 || n == 2 {
                    Ok(ChondriteType::CO)
                } else {
                    Err(SettingError::InvalidCode(n))
                }
            },
            ChondriteSetting::S(s) => {
                if let Some(c_type) = ChondriteType::from_string(&s) {
                    Ok(c_type)
                } else {
                    Err(SettingError::InvalidName(s))
                }
            },
        }
    }
}

impl Default for ChondriteType {
    fn default() -> (r: ChondriteType)
        ensures
            r == ChondriteType::CI,
    {
        ChondriteType::CI
    }
}

/// The lower-case form of `s` that `str::to_lowercase` gives, by the Unicode tables of std.
pub uninterp spec fn unicode_lowercase(s: Seq<char>) -> Seq<char>;

/// Calls `str::to_lowercase`; its result is named by `unicode_lowercase` of the characters of `s`.
#[verifier::external_body]
fn str_to_lowercase(s: &str) -> (r: String)
    ensures
        r@ == unicode_lowercase(s@),
{
    s.to_lowercase()
}

/// Rheology model used for tidal calculations.
#[derive(Debug, Clone, Copy, PartialEq, Eq, Structural)]
pub enum TidalModel {
    /// Maxwell viscoelastic rheology model.
    Maxwell,
    /// Burgers viscoelastic rheology model.
    Burgers,
    /// Andrade viscoelastic rheology model.
    Andr,
    /// Sundberg-Cooper viscoelastic rheology model.
    SunCoop,
}

impl TidalModel {
    /// The integer code of the model: 2 to 5.
    pub open spec fn code_of(self) -> u8 {
        match self {
            TidalModel::Maxwell => 2,
            TidalModel::Burgers => 3,
            TidalModel::Andr => 4,
            TidalModel::SunCoop => 5,
        }
    }

    /// The model with integer code `n`.
    pub open spec fn from_code_spec(n: u8) -> Option<TidalModel> {
        if n == 2 {
            Some(TidalModel::Maxwell)
        } else if n == 3 {
            Some(TidalModel::Burgers)
        } else if n == 4 {
            Some(TidalModel::Andr)
        } else if n == 5 {
            Some(TidalModel::SunCoop)
        } else {
            None
        }
    }

    /// The model named by `t`, a lower-case name without surrounding white space.
    pub open spec fn from_name_spec(t: Seq<char>) -> Option<TidalModel> {
        if t == "maxwell"@ {
            Some(TidalModel::Maxwell)
        } else if t == "burgers"@ {
            Some(TidalModel::Burgers)
        } else if t == "andr"@ || t == "andrade"@ {
            Some(TidalModel::Andr)
        } else if t == "suncoop"@ || t == "sundberg-cooper"@ {
            Some(TidalModel::SunCoop)
        } else {
            None
        }
    }

    /// The integer code of the model.
    pub fn code(&self) -> (n: u8)
        ensures
            n == self.code_of(),
    {
        match self {
            TidalModel::Maxwell => 2,
            TidalModel::Burgers => 3,
            TidalModel::Andr => 4,
            TidalModel::SunCoop => 5,
        }
    }

    /// The model named by `lowered`, an already lower-cased name, ignoring surrounding
    /// white space.
    pub fn from_lowercase(lowered: &str) -> (r: Option<TidalModel>)
        ensures
            r == TidalModel::from_name_spec(trim(lowered@)),
    {
        let t = trimmed(&chars_of(lowered));
        if chars_eq(&t, "maxwell") {
            Some(TidalModel::Maxwell)
        } else if chars_eq(&t, "burgers") {
            Some(TidalModel::Burgers)
        } else if chars_eq(&t, "andr") || chars_eq(&t, "andrade") {
            Some(TidalModel::Andr)
        } else if chars_eq(&t, "suncoop") || chars_eq(&t, "sundberg-cooper") {
            Some(TidalModel::SunCoop)
        } else {
            None
        }
    }

    /// The model named by `s`, ignoring letter case and surrounding white space.
    pub fn from_str(s: &str) -> (r: Option<TidalModel>)
        ensures
            r == TidalModel::from_name_spec(trim(unicode_lowercase(s@))),
    {
        let lowered = str_to_lowercase(s);
        TidalModel::from_lowercase(lowered.as_str())
    }

    /// Decide a configuration value: an integer code (2 to 5) or a name.
    pub fn from_setting(input: CodeOrName) -> (r: Result<TidalModel, SettingError>)
        ensures
            match input {
                CodeOrName::Int(n) => match TidalModel::from_code_spec(n) {
                    Some(m) => r == Ok::<TidalModel, SettingError>(m),
                    None => r matches Err(SettingError::InvalidCode(c)) && c == n,
                },
                CodeOrName::S(s) => match TidalModel::from_name_spec(
                    trim(unicode_lowercase(s@)),
                ) {
                    Some(m) => r == Ok::<TidalModel, SettingError>(m),
                    None => r matches Err(SettingError::InvalidName(e)) && e@ == s@,
                },
            },
    {
        match input {
            CodeOrName::Int(n) => {
                if n == 2 {
                    Ok(TidalModel::Maxwell)
                } else if n == 3 {
                    Ok(TidalModel::Burgers)
                } else if n == 4 {
                    Ok(TidalModel::Andr)
                } else if n == 5 {
                    Ok(TidalModel::SunCoop)
                } else {
                    Err(SettingError::InvalidCode(n))
                }
            },
            CodeOrName::S(s) => {
                if let Some(model) = TidalModel::from_str(&s) {
                    Ok(model)
                } else {
                    Err(SettingError::InvalidName(s))
                }
            },
        }
    }
}

impl Default for TidalModel {
    fn default() -> (r: TidalModel)
        ensures
            r == TidalModel::Maxwell,
    {
        TidalModel::Maxwell
    }
}

/// Configuration flags for simulation logging and recovery.
#[derive(Debug, Clone, Copy, PartialEq, Eq, Structural)]
pub struct Housekeeping {
    /// Flag to display simulation warnings.
    pub warnings: bool,
    /// Flag to recover simulation state from previous output files.
    pub recover: bool,
}

/// Dissolution options for core cracking.
#[derive(Debug, Clone, Copy, PartialEq, Eq, Structural)]
pub struct CoreCrackDissol {
    /// Flag to include silica dissolution.
    pub of_silica: bool,
    /// Flag to include serpentine dissolution.
    pub of_serp: bool,
    /// Flag to include carbonate dissolution.
    pub of_carb: bool,
}

/// Mechanisms for the core cracking simulation.
#[derive(Debug, Clone, Copy, PartialEq, Eq, Structural)]
pub struct CoreCrack {
    /// Flag to include thermal expansion mismatch stresses.
    pub incl_therm_mismatch: bool,
    /// Flag to include pore pressure stresses.
    pub incl_pore: bool,
    /// Flag to include hydration volume expansion stresses.
    pub incl_hydr: bool,
    /// Flag to include mineral dissolution stresses.
    pub incl_dissol: bool,
    /// Detailed mineral dissolution configuration.
    pub dissol: CoreCrackDissol,
}

impl Default for Housekeeping {
    fn default() -> (r: Housekeeping)
        ensures
            !r.warnings && !r.recover,
    {
        Housekeeping { warnings: false, recover: false }
    }
}

impl Default for CoreCrackDissol {
    fn default() -> (r: CoreCrackDissol)
        ensures
            !r.of_silica && !r.of_serp && !r.of_carb,
    {
        CoreCrackDissol { of_silica: false, of_serp: false, of_carb: false }
    }
}

impl Default for CoreCrack {
    fn default() -> (r: CoreCrack)
        ensures
            !r.incl_therm_mismatch && !r.incl_pore && !r.incl_hydr && !r.incl_dissol,
            !r.dissol.of_silica && !r.dissol.of_serp && !r.dissol.of_carb,
    {
        CoreCrack {
            incl_therm_mismatch: false,
            incl_pore: false,
            incl_hydr: false,
            incl_dissol: false,
            dissol: CoreCrackDissol { of_silica: false, of_serp: false, of_carb: false },
        }
    }
}

/// Every dissipation mode, eccentricity model and rheology model is selected by its own
/// integer code, and a code selects a model only if it is the code of one.
pub proof fn lemma_codes_round_trip(q: QMode, e: EccModel, t: TidalModel, n: u8)
    ensures
        QMode::from_code_spec(q.code_of()) == Ok::<QMode, u8>(q),
        EccModel::from_code_spec(e.code_of()) == Ok::<EccModel, u8>(e),
        TidalModel::from_code_spec(t.code_of()) == Some(t),
        QMode::from_code_spec(n) matches Ok(m) ==> m.code_of() == n,
        EccModel::from_code_spec(n) matches Ok(m) ==> m.code_of() == n,
        TidalModel::from_code_spec(n) matches Some(m) ==> m.code_of() == n,
        QMode::from_code_spec(n) is Err <==> n >= 3,
        EccModel::from_code_spec(n) is Err <==> n >= 3,
        TidalModel::from_code_spec(n) is None <==> (n < 2 || n > 5),
{
}

/// A boolean chondrite setting selects the same type as the integer code 0 or 1.
pub proof fn lemma_chondrite_bool_is_code(b: bool)
    ensures
        ChondriteType::from_code_spec(if b { 1u8 } else { 0u8 }) == Some(
            if b {
                ChondriteType::CO
            } else {
                ChondriteType::CI
            },
        ),
{
}

proof fn lemma_ascii_lower_idempotent(s: Seq<char>)
    ensures
        ascii_lower(ascii_lower(s)) == ascii_lower(s),
{
    assert forall|i: int| 0 <= i < s.len() implies #[trigger] ascii_lower(ascii_lower(s))[i]
        == ascii_lower(s)[i] by {
        let c = s[i];
        if 'A' <= c && c <= 'Z' {
            assert(ascii_lower_char(c) as u32 == c as u32 + 32);
        }
    }
    assert(ascii_lower(ascii_lower(s)) =~= ascii_lower(s));
}

proof fn lemma_padding_vanishes(s: Seq<char>, c: char)
    requires
        is_white_space(c),
    ensures
        trim(ascii_lower(seq![c] + s)) == trim(ascii_lower(s)),
        trim(ascii_lower(s + seq![c])) == trim(ascii_lower(s)),
{
    assert(!('A' <= c && c <= 'Z'));
    let l = ascii_lower(s);
    assert(ascii_lower(seq![c] + s) =~= seq![c] + l);
    assert((seq![c] + l).drop_first() =~= l);
    assert(trim_start(seq![c] + l) == trim_start(l));
    assert(ascii_lower(s + seq![c]) =~= l + seq![c]);
    lemma_trim_start_append_white(l, c);
    assert((trim_start(l) + seq![c]).drop_last() =~= trim_start(l));
    if trim_start(l).len() > 0 {
        assert((trim_start(l) + seq![c]).last() == c);
    }
}

proof fn lemma_trim_start_append_white(l: Seq<char>, c: char)
    requires
        is_white_space(c),
    ensures
        trim_end(trim_start(l + seq![c])) == trim_end(trim_start(l)),
    decreases l.len(),
{
    if l.len() > 0 && is_white_space(l[0]) {
        assert((l + seq![c]).drop_first() =~= l.drop_first() + seq![c]);
        lemma_trim_start_append_white(l.drop_first(), c);
    } else if l.len() > 0 {
        assert((l + seq![c])[0] == l[0]);
        assert(trim_start(l + seq![c]) == l + seq![c]);
        assert(trim_start(l) == l);
        assert((l + seq![c]).drop_last() =~= l);
        assert((l + seq![c]).last() == c);
    } else {
        assert(l + seq![c] =~= seq![c]);
        assert(seq![c].drop_first() =~= Seq::<char>::empty());
        assert(trim_start(seq![c]) == trim_start(Seq::<char>::empty()));
        assert(trim_start(l) == l);
    }
}

/// Model names are read without regard to ASCII letter case or to white space around
/// them: lower-casing a name, or adding a white-space character before or after it,
/// selects the same dissipation mode, eccentricity model and chondrite type.
pub proof fn lemma_names_ignore_case_and_padding(s: Seq<char>, c: char)
    requires
        is_white_space(c),
    ensures
        QMode::from_name_spec(trim(ascii_lower(ascii_lower(s)))) == QMode::from_name_spec(
            trim(ascii_lower(s)),
        ),
        EccModel::from_name_spec(trim(ascii_lower(ascii_lower(s)))) == EccModel::from_name_spec(
            trim(ascii_lower(s)),
        ),
        ChondriteType::from_name_spec(trim(ascii_lower(ascii_lower(s))))
            == ChondriteType::from_name_spec(trim(ascii_lower(s))),
        QMode::from_name_spec(trim(ascii_lower(seq![c] + s))) == QMode::from_name_spec(
            trim(ascii_lower(s)),
        ),
        QMode::from_name_spec(trim(ascii_lower(s + seq![c]))) == QMode::from_name_spec(
            trim(ascii_lower(s)),
        ),
        EccModel::from_name_spec(trim(ascii_lower(seq![c] + s))) == EccModel::from_name_spec(
            trim(ascii_lower(s)),
        ),
        EccModel::from_name_spec(trim(ascii_lower(s + seq![c]))) == EccModel::from_name_spec(
            trim(ascii_lower(s)),
        ),
        ChondriteType::from_name_spec(trim(ascii_lower(seq![c] + s)))
            == ChondriteType::from_name_spec(trim(ascii_lower(s))),
        ChondriteType::from_name_spec(trim(ascii_lower(s + seq![c])))
            == ChondriteType::from_name_spec(trim(ascii_lower(s))),
{
    lemma_ascii_lower_idempotent(s);
    lemma_padding_vanishes(s, c);
}

} // verus!

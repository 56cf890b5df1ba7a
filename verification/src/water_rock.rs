//! Table layouts and input templates of the water-rock geochemistry model.

use vstd::prelude::*;
use crate::text::{chars_of, is_white_space, starts_with_lit, trim_start, trimmed_start};

verus! {

/// Geochemical variables per simulation.
pub const NVAR: usize = 1024;
/// Aqueous species (and physical parameters).
pub const NAQ: usize = 257;
/// Gaseous species.
pub const NGASES: usize = 15;
/// Minerals and gases.
pub const NMINGAS: usize = 389;
/// Elements (and one extra column).
pub const NELTS: usize = 31;

/// The line of the molar-mass file that row `r` of the molar-mass table is taken from:
/// row 0 from line 0; each mineral line `m` fills two consecutive rows from `NAQ - 1`;
/// the gas lines fill the rows from `NAQ + 2 * (NMINGAS - NGASES) + 4`; other rows hold none.
pub open spec fn mol_mass_source(r: int) -> Option<int> {
    let minerals = NMINGAS - NGASES;
    let gas_base = NAQ + 2 * minerals + 4;
    if r == 0 {
        Some(0)
    } else if NAQ - 1 <= r < NAQ - 1 + 2 * minerals {
        Some((r - (NAQ - 1)) / 2)
    } else if gas_base <= r < gas_base + NGASES {
        Some(minerals + (r - gas_base))
    } else {
        None
    }
}

/// Lay out the lines read from the molar-mass file (`NELTS` values each) as the rows of the
/// molar-mass table (`NVAR` rows of `NELTS` values), with `zero` where a row holds no line.
pub fn arrange_mol_mass<T: Copy>(read_data: &Vec<Vec<T>>, zero: T) -> (molmass: Vec<Vec<T>>)
    requires
        read_data@.len() >= NMINGAS,
        forall|k: int| 0 <= k < read_data@.len() ==> #[trigger] read_data@[k]@.len() == NELTS,
    ensures
        molmass@.len() == NVAR,
        forall|r: int| 0 <= r < NVAR ==> #[trigger] molmass@[r]@.len() == NELTS,
        forall|r: int, j: int|
            0 <= r < NVAR && 0 <= j < NELTS ==> #[trigger] molmass@[r]@[j] == match mol_mass_source(r) {
                Some(k) => read_data@[k]@[j],
                None => zero,
            },
{
    let mut molmass: Vec<Vec<T>> = Vec::new();
    for r in 0..NVAR
        invariant
            read_data@.len() >= NMINGAS,
            forall|k: int| 0 <= k < read_data@.len() ==> #[trigger] read_data@[k]@.len() == NELTS,
            molmass@.len() == r,
            forall|q: int| 0 <= q < r ==> #[trigger] molmass@[q]@.len() == NELTS,
            forall|q: int, j: int|
                0 <= q < r && 0 <= j < NELTS ==> #[trigger] molmass@[q]@[j] == match mol_mass_source(q) {
                    Some(k) => read_data@[k]@[j],
                    None => zero,
                },
    {
        let source: Option<usize> = if r == 0 {
            Some(0)
        } else if NAQ - 1 <= r && r < NAQ - 1 + 2 * (NMINGAS - NGASES) {
            Some((r - (NAQ - 1)) / 2)
        } else if NAQ + 2 * (NMINGAS - NGASES) + 4 <= r && r < NAQ + 2 * (NMINGAS - NGASES) + 4
            + NGASES {
            Some((NMINGAS - NGASES) + (r - (NAQ + 2 * (NMINGAS - NGASES) + 4)))
        } else {
            None
        };
        let mut row: Vec<T> = Vec::new();
        for j in 0..NELTS
            invariant
                read_data@.len() >= NMINGAS,
                forall|k: int| 0 <= k < read_data@.len() ==> #[trigger] read_data@[k]@.len() == NELTS,
                source == match mol_mass_source(r as int) {
                    Some(k) => Some(k as usize),
                    None => None::<usize>,
                },
                row@.len() == j,
                forall|jj: int|
                    0 <= jj < j ==> #[trigger] row@[jj] == match mol_mass_source(r as int) {
                        Some(k) => read_data@[k]@[jj],
                        None => zero,
                    },
        {
            match source {
                Some(k) => {
                    row.push(read_data[k][j]);
                },
                None => {
                    row.push(zero);
                },
            }
        }
        molmass.push(row);
    }
    molmass
}

/// What a line of the solution template becomes in the input file written for a run.
#[derive(Debug, Clone, Copy, PartialEq, Eq, Structural)]
pub enum TemplateLine {
    /// The pH line of the solution.
    Ph,
    /// The temperature line of the solution.
    Temp,
    /// The pressure line of the solution.
    Pressure,
    /// The pe line of the solution.
    Pe,
    /// The water mass line of the solution.
    Water,
    /// A `-pressure` option line.
    PressureOption,
    /// A `-temperature` option line.
    TemperatureOption,
    /// Any other line, copied as it stands.
    Keep,
}

/// Whether `s` begins with `p`.
pub open spec fn has_prefix(s: Seq<char>, p: Seq<char>) -> bool {
    p.len() <= s.len() && s.subrange(0, p.len() as int) == p
}

/// What line `line_no` (counted from 1) of the template becomes: lines 5 to 9 receive the pH,
/// temperature, pressure, pe and water mass; further lines whose text, after leading white
/// space, begins with `-pres` or `-temp` receive the pressure or temperature option.
pub open spec fn template_line_spec(line_no: int, line: Seq<char>) -> TemplateLine {
    if line_no == 5 {
        TemplateLine::Ph
    } else if line_no == 6 {
        TemplateLine::Temp
    } else if line_no == 7 {
        TemplateLine::Pressure
    } else if line_no == 8 {
        TemplateLine::Pe
    } else if line_no == 9 {
        TemplateLine::Water
    } else if has_prefix(trim_start(line), "-pres"@) {
        TemplateLine::PressureOption
    } else if has_prefix(trim_start(line), "-temp"@) {
        TemplateLine::TemperatureOption
    } else {
        TemplateLine::Keep
    }
}

/// What line `line_no` (counted from 1) of the solution template becomes.
pub fn template_line(line_no: usize, line: &str) -> (r: TemplateLine)
    ensures
        r == template_line_spec(line_no as int, line@),
{
    if line_no == 5 {
        TemplateLine::Ph
    } else if line_no == 6 {
        TemplateLine::Temp
    } else if line_no == 7 {
        TemplateLine::Pressure
    } else if line_no == 8 {
        TemplateLine::Pe
    } else if line_no == 9 {
        TemplateLine::Water
    } else {
        let t = trimmed_start(&chars_of(line));
        if starts_with_lit(&t, "-pres") {
            TemplateLine::PressureOption
        } else if starts_with_lit(&t, "-temp") {
            TemplateLine::TemperatureOption
        } else {
            TemplateLine::Keep
        }
    }
}

/// Each mineral line of the molar-mass file fills two consecutive rows of the table, each
/// gas line one row, and line 0 also fills row 0.
pub proof fn lemma_mol_mass_rows(m: int, g: int)
    requires
        0 <= m < NMINGAS - NGASES,
        0 <= g < NGASES,
    ensures
        mol_mass_source(NAQ - 1 + 2 * m) == Some(m),
        mol_mass_source(NAQ + 2 * m) == Some(m),
        mol_mass_source(NAQ + 2 * (NMINGAS - NGASES) + 4 + g) == Some(NMINGAS - NGASES + g),
        mol_mass_source(0) == Some(0int),
{
}

/// Which rows of the molar-mass table receive a line of the file: row 0 (from line 0),
/// rows 256 to 1003 (two per mineral line, from line 0 on) and rows 1009 to 1023 (one per
/// gas line, from line 374 on). Every other row, the aqueous species among them, holds
/// only the zero value.
pub proof fn lemma_mol_mass_filled_rows(r: int)
    requires
        0 <= r < NVAR,
    ensures
        r == 0 ==> mol_mass_source(r) == Some(0int),
        256 <= r < 1004 ==> mol_mass_source(r) == Some((r - 256) / 2),
        1009 <= r < 1024 ==> mol_mass_source(r) == Some(374 + (r - 1009)),
        (1 <= r < 256 || 1004 <= r < 1009) <==> mol_mass_source(r) is None,
{
}

proof fn lemma_trim_start_padding(pad: Seq<char>, s: Seq<char>)
    requires
        forall|k: int| 0 <= k < pad.len() ==> is_white_space(#[trigger] pad[k]),
        s.len() > 0,
        !is_white_space(s[0]),
    ensures
        trim_start(pad + s) == s,
    decreases pad.len(),
{
    if pad.len() > 0 {
        assert((pad + s)[0] == pad[0]);
        assert((pad + s).drop_first() =~= pad.drop_first() + s);
        assert forall|k: int| 0 <= k < pad.drop_first().len() implies is_white_space(
            #[trigger] pad.drop_first()[k],
        ) by {
            assert(pad.drop_first()[k] == pad[k + 1]);
        }
        lemma_trim_start_padding(pad.drop_first(), s);
    } else {
        assert(pad + s =~= s);
    }
}

/// Lines 5 to 9 of the template receive the pH, temperature, pressure, pe and water mass.
/// On any other line, an option written `-temp...` (such as `-temperature`) after
/// leading white space receives the run's temperature, one written `-pres...` the run's
/// pressure, and a line whose first visible character is not `-` is copied unchanged.
pub proof fn lemma_template_options(line_no: int, pad: Seq<char>, rest: Seq<char>, x: char)
    requires
        forall|k: int| 0 <= k < pad.len() ==> is_white_space(#[trigger] pad[k]),
    ensures
        template_line_spec(5, pad + rest) == TemplateLine::Ph,
        template_line_spec(6, pad + rest) == TemplateLine::Temp,
        template_line_spec(7, pad + rest) == TemplateLine::Pressure,
        template_line_spec(8, pad + rest) == TemplateLine::Pe,
        template_line_spec(9, pad + rest) == TemplateLine::Water,
        !(5 <= line_no <= 9) ==> template_line_spec(line_no, pad + ("-temp"@ + rest))
            == TemplateLine::TemperatureOption,
        !(5 <= line_no <= 9) ==> template_line_spec(line_no, pad + ("-pres"@ + rest))
            == TemplateLine::PressureOption,
        !(5 <= line_no <= 9) && x != '-' && !is_white_space(x) ==> template_line_spec(
            line_no,
            pad + (seq![x] + rest),
        ) == TemplateLine::Keep,
{
    reveal_strlit("-temp");
    reveal_strlit("-pres");
    let t = "-temp"@ + rest;
    let p = "-pres"@ + rest;
    let k = seq![x] + rest;
    assert(t[0] == '-');
    assert(p[0] == '-');
    lemma_trim_start_padding(pad, t);
    lemma_trim_start_padding(pad, p);
    assert(t.subrange(0, 5) =~= "-temp"@);
    assert(p.subrange(0, 5) =~= "-pres"@);
    assert(t.subrange(0, 5)[1] == 't');
    if x != '-' && !is_white_space(x) {
        lemma_trim_start_padding(pad, k);
        if k.len() >= 5 {
            assert(k.subrange(0, 5)[0] == x);
        }
    }
}

} // verus!

//! Progressive bracket tables and the two ways of charging along them.

use vstd::prelude::*;
use crate::quantia::{centesimos, milesimos};

verus! {

/// One row of a bracket table.
pub struct Faixa {
    /// Highest base that still falls in this bracket; `None` where the
    /// bracket is open above.
    pub teto: Option<real>,
    /// Rate charged in this bracket.
    pub aliquota: real,
    /// Constant taken off the charge where the whole base is charged at this
    /// bracket's rate.
    pub deducao: real,
}

/// Whether `base` lies at or under the ceiling of `faixa`.
pub open spec fn cabe(faixa: Faixa, base: real) -> bool {
    match faixa.teto {
        Some(teto) => base <= teto,
        None => true,
    }
}

/// The first bracket from `i` on under whose ceiling `base` lies, or the last
/// bracket of the table where there is none.
pub open spec fn faixa_a_partir(tabela: Seq<Faixa>, base: real, i: int) -> int
    decreases tabela.len() - i,
{
    if i + 1 >= tabela.len() || cabe(tabela[i], base) {
        i
    } else {
        faixa_a_partir(tabela, base, i + 1)
    }
}

/// The bracket that `base` falls in: the lowest one whose ceiling is not
/// under `base`, or the highest bracket where `base` is above every ceiling.
pub open spec fn faixa_de(tabela: Seq<Faixa>, base: real) -> int {
    faixa_a_partir(tabela, base, 0)
}

/// The bracket that `faixa_de` names is a row of the table, no row under it
/// has room for `base`, and it has room itself unless it is the last row.
pub proof fn lema_faixa_de(tabela: Seq<Faixa>, base: real)
    requires
        tabela.len() > 0,
    ensures
        0 <= faixa_de(tabela, base) < tabela.len(),
        forall|j: int| 0 <= j < faixa_de(tabela, base) ==> !cabe(#[trigger] tabela[j], base),
        faixa_de(tabela, base) + 1 < tabela.len() ==> cabe(
            tabela[faixa_de(tabela, base)],
            base,
        ),
{
    lema_faixa_a_partir(tabela, base, 0);
}

/// What `lema_faixa_de` says, for a search that begins at row `i`.
proof fn lema_faixa_a_partir(tabela: Seq<Faixa>, base: real, i: int)
    requires
        0 <= i < tabela.len(),
    ensures
        i <= faixa_a_partir(tabela, base, i) < tabela.len(),
        forall|j: int|
            i <= j < faixa_a_partir(tabela, base, i) ==> !cabe(#[trigger] tabela[j], base),
        faixa_a_partir(tabela, base, i) + 1 < tabela.len() ==> cabe(
            tabela[faixa_a_partir(tabela, base, i)],
            base,
        ),
    decreases tabela.len() - i,
{
    if !(i + 1 >= tabela.len() || cabe(tabela[i], base)) {
        lema_faixa_a_partir(tabela, base, i + 1);
    }
}

/// Where bracket `i` begins: the ceiling of the bracket under it, and zero
/// for the lowest bracket.
pub open spec fn piso(tabela: Seq<Faixa>, i: int) -> real {
    if i <= 0 {
        0real
    } else {
        match tabela[i - 1].teto {
            Some(teto) => teto,
            None => 0real,
        }
    }
}

/// The charge on the brackets under `i`, each taken in full at its own rate.
pub open spec fn faixas_cheias(tabela: Seq<Faixa>, i: int) -> real
    decreases i,
{
    if i <= 0 {
        0real
    } else {
        faixas_cheias(tabela, i - 1) + (piso(tabela, i) - piso(tabela, i - 1)) * tabela[i
            - 1].aliquota
    }
}

/// `base`, held down to the ceiling of the highest bracket where it has one.
pub open spec fn limitada(tabela: Seq<Faixa>, base: real) -> real {
    match tabela.last().teto {
        Some(teto) => if base > teto { teto } else { base },
        None => base,
    }
}

/// Marginal, cumulative charge: every bracket under the one that the base
/// falls in is charged in full at its own rate, and the rest of the base at
/// the rate of its bracket. A base above the highest ceiling is charged as if
/// it stood at that ceiling.
pub open spec fn cobranca_marginal(tabela: Seq<Faixa>, base: real) -> real {
    let b = limitada(tabela, base);
    let i = faixa_de(tabela, b);
    faixas_cheias(tabela, i) + (b - piso(tabela, i)) * tabela[i].aliquota
}

/// Flat charge: the whole base at the rate of the bracket it falls in, less
/// that bracket's deduction.
pub open spec fn cobranca_por_faixa(tabela: Seq<Faixa>, base: real) -> real {
    let i = faixa_de(tabela, base);
    base * tabela[i].aliquota - tabela[i].deducao
}

/// Social-security brackets.
pub open spec fn tabela_inss() -> Seq<Faixa> {
    seq![
        Faixa { teto: Some(centesimos(132000)), aliquota: milesimos(75), deducao: 0real },
        Faixa { teto: Some(centesimos(257129)), aliquota: milesimos(90), deducao: 0real },
        Faixa { teto: Some(centesimos(385694)), aliquota: milesimos(120), deducao: 0real },
        Faixa { teto: Some(centesimos(750749)), aliquota: milesimos(140), deducao: 0real },
    ]
}

/// Income-tax brackets.
pub open spec fn tabela_irrf() -> Seq<Faixa> {
    seq![
        Faixa { teto: Some(centesimos(190398)), aliquota: 0real, deducao: 0real },
        Faixa { teto: Some(centesimos(282665)), aliquota: milesimos(75), deducao: centesimos(14280) },
        Faixa { teto: Some(centesimos(375105)), aliquota: milesimos(150), deducao: centesimos(35480) },
        Faixa { teto: Some(centesimos(466468)), aliquota: milesimos(225), deducao: centesimos(63613) },
        Faixa { teto: None, aliquota: milesimos(275), deducao: centesimos(86936) },
    ]
}

/// A product whose second factor is known is the product by that known value.
proof fn lema_fator_conhecido(x: real, y: real, k: real)
    by (nonlinear_arith)
    requires
        y == k,
    ensures
        x * y == x * k,
{
}

/// The marginal charge on the social-security table, bracket by bracket.
pub proof fn lema_marginal_inss(base: real)
    ensures
        cobranca_marginal(tabela_inss(), base) == (if base <= centesimos(132000) {
            base * milesimos(75)
        } else if base <= centesimos(257129) {
            centesimos(132000) * milesimos(75) + (base - centesimos(132000)) * milesimos(90)
        } else if base <= centesimos(385694) {
            centesimos(132000) * milesimos(75) + (centesimos(257129) - centesimos(132000))
                * milesimos(90) + (base - centesimos(257129)) * milesimos(120)
        } else if base <= centesimos(750749) {
            centesimos(132000) * milesimos(75) + (centesimos(257129) - centesimos(132000))
                * milesimos(90) + (centesimos(385694) - centesimos(257129)) * milesimos(120) + (
            base - centesimos(385694)) * milesimos(140)
        } else {
            centesimos(132000) * milesimos(75) + (centesimos(257129) - centesimos(132000))
                * milesimos(90) + (centesimos(385694) - centesimos(257129)) * milesimos(120) + (
            centesimos(750749) - centesimos(385694)) * milesimos(140)
        }),
{
    let t = tabela_inss();
    reveal_with_fuel(faixa_a_partir, 5);
    reveal_with_fuel(faixas_cheias, 5);
    assert(t.len() == 4);
    let b = limitada(t, base);
    let i = faixa_de(t, b);
    lema_fator_conhecido(piso(t, 1) - piso(t, 0), t[0].aliquota, milesimos(75));
    lema_fator_conhecido(piso(t, 2) - piso(t, 1), t[1].aliquota, milesimos(90));
    lema_fator_conhecido(piso(t, 3) - piso(t, 2), t[2].aliquota, milesimos(120));
    if i == 0 {
        lema_fator_conhecido(b - piso(t, 0), t[0].aliquota, milesimos(75));
    } else if i == 1 {
        lema_fator_conhecido(b - piso(t, 1), t[1].aliquota, milesimos(90));
    } else if i == 2 {
        lema_fator_conhecido(b - piso(t, 2), t[2].aliquota, milesimos(120));
    } else {
        lema_fator_conhecido(b - piso(t, 3), t[3].aliquota, milesimos(140));
    }
}

/// The flat charge on the income-tax table, bracket by bracket.
pub proof fn lema_por_faixa_irrf(base: real)
    ensures
        cobranca_por_faixa(tabela_irrf(), base) == (if base <= centesimos(190398) {
            0real
        } else if base <= centesimos(282665) {
            base * milesimos(75) - centesimos(14280)
        } else if base <= centesimos(375105) {
            base * milesimos(150) - centesimos(35480)
        } else if base <= centesimos(466468) {
            base * milesimos(225) - centesimos(63613)
        } else {
            base * milesimos(275) - centesimos(86936)
        }),
{
    let t = tabela_irrf();
    reveal_with_fuel(faixa_a_partir, 6);
    assert(t.len() == 5);
    let i = faixa_de(t, base);
    if i == 0 {
        lema_fator_conhecido(base, t[0].aliquota, 0real);
    } else if i == 1 {
        lema_fator_conhecido(base, t[1].aliquota, milesimos(75));
    } else if i == 2 {
        lema_fator_conhecido(base, t[2].aliquota, milesimos(150));
    } else if i == 3 {
        lema_fator_conhecido(base, t[3].aliquota, milesimos(225));
    } else {
        lema_fator_conhecido(base, t[4].aliquota, milesimos(275));
    }
}

} // verus!

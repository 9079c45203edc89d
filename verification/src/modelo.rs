//! The payroll formulas over the real numbers.
//!
//! This is what the library computes, said without any machine number: every
//! operation on a [`crate::Salario`] is proved equal to one of these
//! functions on the record it stands for.

use vstd::prelude::*;
use crate::faixas::{cobranca_marginal, cobranca_por_faixa, tabela_inss, tabela_irrf};
use crate::quantia::centesimos;

verus! {

/// What an employee is paid, as the formulas read it.
pub struct Remuneracao {
    /// Monthly gross pay.
    pub bruto: real,
    /// Number of tax dependents.
    pub dependentes: nat,
    /// Transport benefit granted by the employer.
    pub vale_transporte: real,
    /// Meal benefit granted by the employer.
    pub vale_refeicao: real,
}

/// Social-security withholding: marginal along the social-security brackets,
/// and no higher than what is due at the highest ceiling.
pub open spec fn inss(bruto: real) -> real {
    cobranca_marginal(tabela_inss(), bruto)
}

/// The base of the income tax: gross pay less social security, less 189.59
/// for each dependent. It is not held at zero.
pub open spec fn base_irrf(bruto: real, dependentes: nat) -> real {
    bruto - inss(bruto) - centesimos(18959) * (dependentes as real)
}

/// Income-tax withholding: the whole base at the rate of its bracket, less
/// the bracket's deduction.
pub open spec fn irrf(bruto: real, dependentes: nat) -> real {
    cobranca_por_faixa(tabela_irrf(), base_irrf(bruto, dependentes))
}

/// What is withheld for transport: the benefit, but no more than 6% of gross
/// pay.
pub open spec fn desconto_transporte(bruto: real, vale_transporte: real) -> real {
    let limite = bruto * (6real / 100real);
    if limite < vale_transporte {
        limite
    } else {
        vale_transporte
    }
}

/// Net pay: gross pay less both withholdings, the transport deduction and the
/// meal benefit.
pub open spec fn salario_liquido(r: Remuneracao) -> real {
    r.bruto - inss(r.bruto) - irrf(r.bruto, r.dependentes) - desconto_transporte(
        r.bruto,
        r.vale_transporte,
    ) - r.vale_refeicao
}

/// Severance after `meses` months of work: net pay, notice pay (a whole net
/// pay after more than twelve months, half of one otherwise) and the
/// severance fund, 8% of gross pay for each month.
pub open spec fn rescisao(r: Remuneracao, meses: int) -> real {
    let liquido = salario_liquido(r);
    let aviso_previo = if meses > 12 {
        liquido
    } else {
        liquido / 2real
    };
    let fgts = r.bruto * (8real / 100real) * (meses as real);
    liquido + aviso_previo + fgts
}

/// Vacation pay: gross pay with the statutory third on top, at 1.3333.
pub open spec fn ferias(bruto: real) -> real {
    bruto * (13333real / 10000real)
}

/// Year-end bonus for `meses` months of work: a twelfth of gross pay for each.
pub open spec fn decimo_terceiro(bruto: real, meses: nat) -> real {
    bruto / 12real * (meses as real)
}

/// First installment of the year-end bonus: half of it, with nothing
/// withheld.
pub open spec fn primeira_parcela(r: Remuneracao, meses: nat) -> real {
    decimo_terceiro(r.bruto, meses) / 2real
}

/// Second installment of the year-end bonus: the first one less both
/// withholdings.
pub open spec fn segunda_parcela(r: Remuneracao, meses: nat) -> real {
    primeira_parcela(r, meses) - (inss(r.bruto) + irrf(r.bruto, r.dependentes))
}

/// What the employer deposits in the severance fund for one month: 8% of
/// gross pay.
pub open spec fn fgts(bruto: real) -> real {
    bruto * (8real / 100real)
}

/// Overtime pay for `horas` hours at `percentual` per cent above the hourly
/// rate, a month having 220 hours.
pub open spec fn horas_extras(bruto: real, horas: real, percentual: real) -> real {
    bruto / 220real * horas * (1real + percentual / 100real)
}

/// Both benefits together.
pub open spec fn beneficios(r: Remuneracao) -> real {
    r.vale_transporte + r.vale_refeicao
}

/// What a contract of `meses` months pays: net pay for each month.
pub open spec fn contrato(r: Remuneracao, meses: nat) -> real {
    salario_liquido(r) * (meses as real)
}

/// Gross pay after a raise of `percentual` per cent.
pub open spec fn reajuste(bruto: real, percentual: real) -> real {
    bruto + bruto * percentual / 100real
}

/// Notice pay: thirty days at a thirtieth of gross pay each.
pub open spec fn aviso(bruto: real) -> real {
    bruto / 30real * 30real
}

/// Pay for `horas` hours of work, a month having 220 hours.
pub open spec fn jornada(bruto: real, horas: real) -> real {
    bruto / 220real * horas
}

} // verus!

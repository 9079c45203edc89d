//! What holds of the withholdings whatever the pay.

use vstd::prelude::*;
use crate::faixas::{lema_marginal_inss, lema_por_faixa_irrf};
use crate::modelo::{base_irrf, inss, irrf};
use crate::quantia::{centesimos, milesimos};

verus! {

/// Up to the first ceiling, 1320.00, social security is 7.5% of gross pay.
pub proof fn lema_inss_primeira_faixa(bruto: real)
    requires
        0real <= bruto <= centesimos(132000),
    ensures
        inss(bruto) == bruto * milesimos(75),
{
    lema_marginal_inss(bruto);
}

/// Social security has no jump, at a bracket's ceiling or anywhere else: it
/// never falls as gross pay rises, and it rises by no more than 14% of what
/// gross pay rises by.
pub proof fn lema_inss_continuo(menor: real, maior: real)
    requires
        menor <= maior,
    ensures
        0real <= inss(maior) - inss(menor) <= (maior - menor) * milesimos(140),
{
    lema_marginal_inss(menor);
    lema_marginal_inss(maior);
}

/// Above the highest ceiling, 7507.49, social security stays at what is due
/// at that ceiling.
pub proof fn lema_inss_no_teto(bruto: real)
    requires
        bruto > centesimos(750749),
    ensures
        inss(bruto) == inss(centesimos(750749)),
{
    lema_marginal_inss(bruto);
    lema_marginal_inss(centesimos(750749));
}

/// No income tax is withheld on a base under 1903.98, a negative one
/// included.
pub proof fn lema_irrf_isento(bruto: real, dependentes: nat)
    requires
        base_irrf(bruto, dependentes) < centesimos(190398),
    ensures
        irrf(bruto, dependentes) == 0real,
{
    lema_por_faixa_irrf(base_irrf(bruto, dependentes));
}

} // verus!

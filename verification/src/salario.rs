//! The compensation record and the operations on it.

use vstd::prelude::*;
use crate::faixas::{lema_marginal_inss, lema_por_faixa_irrf};
use crate::modelo::{
    aviso, base_irrf, beneficios, contrato, decimo_terceiro, desconto_transporte, ferias, fgts,
    horas_extras, inss, irrf, jornada, primeira_parcela, reajuste, rescisao, salario_liquido,
    segunda_parcela, Remuneracao,
};
use crate::quantia::{centesimos, Quantia};

verus! {

/// Ceilings of the social-security brackets, in centavos.
const TETO_INSS_1: i128 = 132_000;

const TETO_INSS_2: i128 = 257_129;

const TETO_INSS_3: i128 = 385_694;

const TETO_INSS_4: i128 = 750_749;

/// Rates of the social-security brackets, in thousandths.
const ALIQUOTA_INSS_1: i128 = 75;

const ALIQUOTA_INSS_2: i128 = 90;

const ALIQUOTA_INSS_3: i128 = 120;

const ALIQUOTA_INSS_4: i128 = 140;

/// What each dependent takes off the income-tax base, in centavos.
const DEDUCAO_POR_DEPENDENTE: i128 = 18_959;

/// Ceilings of the income-tax brackets, in hundred-thousandths.
const TETO_IRRF_1: i128 = 190_398_000;

const TETO_IRRF_2: i128 = 282_665_000;

const TETO_IRRF_3: i128 = 375_105_000;

const TETO_IRRF_4: i128 = 466_468_000;

/// Rates of the taxed income-tax brackets, in thousandths.
const ALIQUOTA_IRRF_2: i128 = 75;

const ALIQUOTA_IRRF_3: i128 = 150;

const ALIQUOTA_IRRF_4: i128 = 225;

const ALIQUOTA_IRRF_5: i128 = 275;

/// Deductions of the taxed income-tax brackets, in hundred-millionths.
const DEDUCAO_IRRF_2: i128 = 14_280_000_000;

const DEDUCAO_IRRF_3: i128 = 35_480_000_000;

const DEDUCAO_IRRF_4: i128 = 63_613_000_000;

const DEDUCAO_IRRF_5: i128 = 86_936_000_000;

/// An employee's compensation. Amounts of money are whole centavos.
pub struct Salario {
    /// Monthly gross pay, in centavos.
    pub bruto: i64,
    /// Number of tax dependents.
    pub dependentes: u32,
    /// Transport benefit, in centavos.
    pub vale_transporte: i64,
    /// Meal benefit, in centavos.
    pub vale_refeicao: i64,
}

impl View for Salario {
    type V = Remuneracao;

    open spec fn view(&self) -> Remuneracao {
        Remuneracao {
            bruto: centesimos(self.bruto as int),
            dependentes: self.dependentes as nat,
            vale_transporte: centesimos(self.vale_transporte as int),
            vale_refeicao: centesimos(self.vale_refeicao as int),
        }
    }
}

impl Salario {
    /// Social-security withholding, in hundred-thousandths.
    pub fn calcular_inss(&self) -> (r: Quantia)
        ensures
            r.denominador == 100_000,
            r@ == inss(self@.bruto),
    {
        let s: i128 = self.bruto as i128;
        let n: i128 = if s <= TETO_INSS_1 {
            s * ALIQUOTA_INSS_1
        } else if s <= TETO_INSS_2 {
            TETO_INSS_1 * ALIQUOTA_INSS_1 + (s - TETO_INSS_1) * ALIQUOTA_INSS_2
        } else if s <= TETO_INSS_3 {
            TETO_INSS_1 * ALIQUOTA_INSS_1 + (TETO_INSS_2 - TETO_INSS_1) * ALIQUOTA_INSS_2 + (s
                - TETO_INSS_2) * ALIQUOTA_INSS_3
        } else if s <= TETO_INSS_4 {
            TETO_INSS_1 * ALIQUOTA_INSS_1 + (TETO_INSS_2 - TETO_INSS_1) * ALIQUOTA_INSS_2 + (
            TETO_INSS_3 - TETO_INSS_2) * ALIQUOTA_INSS_3 + (s - TETO_INSS_3) * ALIQUOTA_INSS_4
        } else {
            TETO_INSS_1 * ALIQUOTA_INSS_1 + (TETO_INSS_2 - TETO_INSS_1) * ALIQUOTA_INSS_2 + (
            TETO_INSS_3 - TETO_INSS_2) * ALIQUOTA_INSS_3 + (TETO_INSS_4 - TETO_INSS_3)
                * ALIQUOTA_INSS_4
        };
        let q = Quantia { numerador: n, denominador: 100_000 };
        proof {
            lema_marginal_inss(self@.bruto);
            assert(q@ == n as real / 100000real);
        }
        q
    }

    /// Income-tax withholding, in hundred-millionths.
    pub fn calcular_irrf(&self) -> (r: Quantia)
        ensures
            r.denominador == 100_000_000,
            r@ == irrf(self@.bruto, self@.dependentes),
    {
        let inss = self.calcular_inss();
        proof {
            lema_marginal_inss(self@.bruto);
            assert(inss@ == inss.numerador as real / 100000real);
        }
        let deducao_dependente: i128 = DEDUCAO_POR_DEPENDENTE * 1000 * (self.dependentes as i128);
        let base_calculo: i128 = (self.bruto as i128) * 1000 - inss.numerador - deducao_dependente;
        let n: i128 = if base_calculo <= TETO_IRRF_1 {
            0
        } else if base_calculo <= TETO_IRRF_2 {
            base_calculo * ALIQUOTA_IRRF_2 - DEDUCAO_IRRF_2
        } else if base_calculo <= TETO_IRRF_3 {
            base_calculo * ALIQUOTA_IRRF_3 - DEDUCAO_IRRF_3
        } else if base_calculo <= TETO_IRRF_4 {
            base_calculo * ALIQUOTA_IRRF_4 - DEDUCAO_IRRF_4
        } else {
            base_calculo * ALIQUOTA_IRRF_5 - DEDUCAO_IRRF_5
        };
        let q = Quantia { numerador: n, denominador: 100_000_000 };
        proof {
            let base = base_irrf(self@.bruto, self@.dependentes);
            lema_por_faixa_irrf(base);
            assert(base == base_calculo as real / 100000real);
            assert(q@ == n as real / 100000000real);
        }
        q
    }

    /// Net pay, in hundred-millionths.
    pub fn calcular_salario_liquido(&self) -> (r: Quantia)
        ensures
            r.denominador == 100_000_000,
            r@ == salario_liquido(self@),
            r@ == self@.bruto - inss(self@.bruto) - irrf(self@.bruto, self@.dependentes)
                - desconto_transporte(self@.bruto, self@.vale_transporte) - self@.vale_refeicao,
    {
        let inss = self.calcular_inss();
        let irrf = self.calcular_irrf();
        let bruto: i128 = self.bruto as i128;
        let vale_transporte: i128 = self.vale_transporte as i128;
        let vt: i128 = bruto * 6;
        let vt_deducao: i128 = if vt < vale_transporte * 100 {
            vt * 10_000
        } else {
            vale_transporte * 1_000_000
        };
        let vr: i128 = (self.vale_refeicao as i128) * 1_000_000;
        proof {
            lema_marginal_inss(self@.bruto);
            lema_por_faixa_irrf(base_irrf(self@.bruto, self@.dependentes));
            assert(inss@ == inss.numerador as real / 100000real);
            assert(irrf@ == irrf.numerador as real / 100000000real);
        }
        let n: i128 = bruto * 1_000_000 - inss.numerador * 1000 - irrf.numerador - vt_deducao - vr;
        let q = Quantia { numerador: n, denominador: 100_000_000 };
        proof {
            assert(q@ == n as real / 100000000real);
            assert(desconto_transporte(self@.bruto, self@.vale_transporte) == vt_deducao as real
                / 100000000real);
        }
        q
    }

    /// Severance after `meses_trabalhados` months of work, in
    /// two-hundred-millionths.
    pub fn calcular_rescisao(&self, meses_trabalhados: i32) -> (r: Quantia)
        ensures
            r.denominador == 200_000_000,
            r@ == rescisao(self@, meses_trabalhados as int),
    {
        let salario_liquido = self.calcular_salario_liquido();
        proof {
            lema_limites_do_liquido(*self);
            assert(salario_liquido@ == salario_liquido.numerador as real / 100000000real);
        }
        let aviso_previo: i128 = if meses_trabalhados > 12 {
            salario_liquido.numerador * 2
        } else {
            salario_liquido.numerador
        };
        let bruto: i128 = self.bruto as i128;
        let meses: i128 = meses_trabalhados as i128;
        proof {
            lema_produto_limitado(bruto as int, meses as int, 0x8000_0000_0000_0000, 0x8000_0000);
        }
        let fgts: i128 = bruto * meses * 160_000;
        let n: i128 = salario_liquido.numerador * 2 + aviso_previo + fgts;
        let q = Quantia { numerador: n, denominador: 200_000_000 };
        proof {
            assert(q@ == n as real / 200000000real);
            assert(self@.bruto * (8real / 100real) * (meses as real) == fgts as real
                / 200000000real) by (nonlinear_arith)
                requires
                    self@.bruto == bruto as real / 100real,
                    fgts == bruto * meses * 160_000,
            ;
        }
        q
    }

    /// Vacation pay, in millionths.
    pub fn calcular_ferias(&self) -> (r: Quantia)
        ensures
            r.denominador == 1_000_000,
            r@ == ferias(self@.bruto),
    {
        let n: i128 = (self.bruto as i128) * 13_333;
        let q = Quantia { numerador: n, denominador: 1_000_000 };
        proof {
            assert(q@ == n as real / 1000000real);
        }
        q
    }

    /// Year-end bonus for `meses_trabalhados` months of work, in
    /// twelve-hundredths.
    pub fn calcular_13(&self, meses_trabalhados: u32) -> (r: Quantia)
        ensures
            r.denominador == 1_200,
            r@ == decimo_terceiro(self@.bruto, meses_trabalhados as nat),
    {
        let bruto: i128 = self.bruto as i128;
        let meses: i128 = meses_trabalhados as i128;
        proof {
            lema_produto_limitado(bruto as int, meses as int, 0x8000_0000_0000_0000, 0x1_0000_0000);
        }
        let n: i128 = bruto * meses;
        let q = Quantia { numerador: n, denominador: 1_200 };
        proof {
            assert(q@ == n as real / 1200real);
            assert(self@.bruto / 12real * (meses as real) == n as real / 1200real)
                by (nonlinear_arith)
                requires
                    self@.bruto == bruto as real / 100real,
                    n == bruto * meses,
            ;
        }
        q
    }

    /// The two installments of the year-end bonus for `meses_trabalhados`
    /// months of work: the first in twenty-four-hundredths, the second in
    /// three-hundred-millionths.
    pub fn calcular_13_parcelas(&self, meses_trabalhados: u32) -> (r: (Quantia, Quantia))
        ensures
            r.0.denominador == 2_400,
            r.1.denominador == 300_000_000,
            r.0@ == primeira_parcela(self@, meses_trabalhados as nat),
            r.1@ == segunda_parcela(self@, meses_trabalhados as nat),
            r.0@ == decimo_terceiro(self@.bruto, meses_trabalhados as nat) / 2real,
            r.1@ == r.0@ - (inss(self@.bruto) + irrf(self@.bruto, self@.dependentes)),
    {
        let inss = self.calcular_inss();
        let irrf = self.calcular_irrf();
        let parcela_unica = self.calcular_13(meses_trabalhados);
        proof {
            lema_marginal_inss(self@.bruto);
            lema_por_faixa_irrf(base_irrf(self@.bruto, self@.dependentes));
            assert(inss@ == inss.numerador as real / 100000real);
            assert(irrf@ == irrf.numerador as real / 100000000real);
            assert(parcela_unica@ == parcela_unica.numerador as real / 1200real);
            lema_produto_limitado(
                self.bruto as int,
                meses_trabalhados as int,
                0x8000_0000_0000_0000,
                0x1_0000_0000,
            );
            assert(self@.bruto / 12real * (meses_trabalhados as real) == (self.bruto
                * meses_trabalhados) as real / 1200real) by (nonlinear_arith)
                requires
                    self@.bruto == self.bruto as real / 100real,
            ;
        }
        let descontos: i128 = inss.numerador * 3_000 + irrf.numerador * 3;
        let primeira_parcela = Quantia { numerador: parcela_unica.numerador, denominador: 2_400 };
        let n: i128 = parcela_unica.numerador * 125_000 - descontos;
        let segunda_parcela = Quantia { numerador: n, denominador: 300_000_000 };
        proof {
            assert(primeira_parcela@ == parcela_unica.numerador as real / 2400real);
            assert(segunda_parcela@ == n as real / 300000000real);
        }
        (primeira_parcela, segunda_parcela)
    }

    /// Monthly deposit in the severance fund, in ten-thousandths.
    pub fn calcular_fgts(&self) -> (r: Quantia)
        ensures
            r.denominador == 10_000,
            r@ == fgts(self@.bruto),
    {
        let n: i128 = (self.bruto as i128) * 8;
        let q = Quantia { numerador: n, denominador: 10_000 };
        proof {
            assert(q@ == n as real / 10000real);
        }
        q
    }

    /// Overtime pay for `horas` hundredths of an hour at `percentual`
    /// hundredths of one per cent above the hourly rate, in units of one part
    /// in twenty-two thousand million.
    pub fn calcular_horas_extras(&self, horas: i32, percentual: i32) -> (r: Quantia)
        ensures
            r.denominador == 22_000_000_000,
            r@ == horas_extras(
                self@.bruto,
                centesimos(horas as int),
                centesimos(percentual as int),
            ),
    {
        let bruto: i128 = self.bruto as i128;
        let h: i128 = horas as i128;
        let fator: i128 = 10_000 + (percentual as i128);
        proof {
            lema_produto_limitado(bruto as int, h as int, 0x8000_0000_0000_0000, 0x8000_0000);
            lema_produto_limitado(
                bruto * h,
                fator as int,
                0x4000_0000_0000_0000_0000_0000,
                0x8000_2710,
            );
        }
        let n: i128 = bruto * h * fator;
        let q = Quantia { numerador: n, denominador: 22_000_000_000 };
        proof {
            assert(q@ == n as real / 22000000000real);
            let p = percentual as int;
            assert(self@.bruto / 220real * centesimos(h as int) * (1real + centesimos(p) / 100real)
                == n as real / 22000000000real) by (nonlinear_arith)
                requires
                    self@.bruto == bruto as real / 100real,
                    n == bruto * h * (10_000 + p),
            ;
        }
        q
    }

    /// Both benefits together, in centavos.
    pub fn calcular_beneficios(&self) -> (r: Quantia)
        ensures
            r.denominador == 100,
            r@ == beneficios(self@),
    {
        let n: i128 = (self.vale_transporte as i128) + (self.vale_refeicao as i128);
        let q = Quantia { numerador: n, denominador: 100 };
        proof {
            assert(q@ == n as real / 100real);
        }
        q
    }

    /// Net pay under the record as it stands, in hundred-millionths.
    pub fn simulacao(&self) -> (r: Quantia)
        ensures
            r.denominador == 100_000_000,
            r@ == salario_liquido(self@),
    {
        self.calcular_salario_liquido()
    }

    /// What a contract of `meses` months pays, in hundred-millionths.
    pub fn calcular_contrato(&self, meses: u32) -> (r: Quantia)
        ensures
            r.denominador == 100_000_000,
            r@ == contrato(self@, meses as nat),
    {
        let salario_liquido = self.calcular_salario_liquido();
        let m: i128 = meses as i128;
        proof {
            lema_limites_do_liquido(*self);
            assert(salario_liquido@ == salario_liquido.numerador as real / 100000000real);
            lema_produto_limitado(
                salario_liquido.numerador as int,
                m as int,
                40_000_000_000_000_000_000_000_000,
                0x1_0000_0000,
            );
        }
        let n: i128 = salario_liquido.numerador * m;
        let q = Quantia { numerador: n, denominador: 100_000_000 };
        proof {
            assert(q@ == n as real / 100000000real);
            assert(salario_liquido@ * (m as real) == n as real / 100000000real)
                by (nonlinear_arith)
                requires
                    salario_liquido@ == salario_liquido.numerador as real / 100000000real,
                    n == salario_liquido.numerador * m,
            ;
        }
        q
    }

    /// Gross pay after a raise of `percentual` hundredths of one per cent, in
    /// millionths.
    pub fn calcular_reajuste(self, percentual: i32) -> (r: Quantia)
        ensures
            r.denominador == 1_000_000,
            r@ == reajuste(self@.bruto, centesimos(percentual as int)),
    {
        let bruto: i128 = self.bruto as i128;
        let fator: i128 = 10_000 + (percentual as i128);
        proof {
            lema_produto_limitado(
                bruto as int,
                fator as int,
                0x8000_0000_0000_0000,
                0x8000_2710,
            );
        }
        let n: i128 = bruto * fator;
        let q = Quantia { numerador: n, denominador: 1_000_000 };
        proof {
            assert(q@ == n as real / 1000000real);
            let p = percentual as int;
            assert(self@.bruto + self@.bruto * centesimos(p) / 100real == n as real
                / 1000000real) by (nonlinear_arith)
                requires
                    self@.bruto == bruto as real / 100real,
                    n == bruto * (10_000 + p),
            ;
        }
        q
    }

    /// Notice pay, in centavos: gross pay itself.
    pub fn calcular_aviso(&self) -> (r: Quantia)
        ensures
            r.denominador == 100,
            r@ == aviso(self@.bruto),
            r@ == self@.bruto,
    {
        let n: i128 = self.bruto as i128;
        let q = Quantia { numerador: n, denominador: 100 };
        proof {
            assert(q@ == n as real / 100real);
        }
        q
    }

    /// Pay for `horas` hundredths of an hour of work, in units of one part in
    /// two million two hundred thousand.
    pub fn calcular_jornada(&self, horas: i32) -> (r: Quantia)
        ensures
            r.denominador == 2_200_000,
            r@ == jornada(self@.bruto, centesimos(horas as int)),
    {
        let bruto: i128 = self.bruto as i128;
        let h: i128 = horas as i128;
        proof {
            lema_produto_limitado(bruto as int, h as int, 0x8000_0000_0000_0000, 0x8000_0000);
        }
        let n: i128 = bruto * h;
        let q = Quantia { numerador: n, denominador: 2_200_000 };
        proof {
            assert(q@ == n as real / 2200000real);
            assert(self@.bruto / 220real * centesimos(h as int) == n as real / 2200000real)
                by (nonlinear_arith)
                requires
                    self@.bruto == bruto as real / 100real,
                    n == bruto * h,
            ;
        }
        q
    }
}

/// Net pay is within four times ten to the seventeenth, in units of currency.
proof fn lema_limites_do_liquido(s: Salario)
    ensures
        -400_000_000_000_000_000real <= salario_liquido(s@) <= 400_000_000_000_000_000real,
{
    lema_marginal_inss(s@.bruto);
    lema_por_faixa_irrf(base_irrf(s@.bruto, s@.dependentes));
}

/// A product is no larger than the product of the bounds of its factors.
proof fn lema_produto_limitado(a: int, b: int, la: int, lb: int)
    by (nonlinear_arith)
    requires
        -la <= a <= la,
        -lb <= b <= lb,
    ensures
        -(la * lb) <= a * b <= la * lb,
{
}

} // verus!

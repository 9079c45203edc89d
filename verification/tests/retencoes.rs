use clt::{Quantia, Salario};

// Amounts are written in centavos with the stroke where the decimal point
// goes: `1320_00` is 1320.00.

fn com_bruto(bruto: i64) -> Salario {
    Salario {
        bruto,
        dependentes: 0,
        vale_transporte: 0,
        vale_refeicao: 0,
    }
}

fn inss_de(bruto: i64) -> i128 {
    let inss = com_bruto(bruto).calcular_inss();
    assert_eq!(inss.denominador, 100_000);
    inss.numerador
}

fn irrf_de(bruto: i64, dependentes: u32) -> i128 {
    let salario = Salario {
        bruto,
        dependentes,
        vale_transporte: 0,
        vale_refeicao: 0,
    };
    let irrf = salario.calcular_irrf();
    assert_eq!(irrf.denominador, 100_000_000);
    irrf.numerador
}

#[test]
fn inss_na_primeira_faixa_e_sete_e_meio_por_cento() {
    for bruto in [0, 1, 660_00, 1319_99, 1320_00] {
        assert_eq!(inss_de(bruto), bruto as i128 * 75);
    }
}

#[test]
fn inss_em_cada_faixa() {
    assert_eq!(inss_de(1320_01), 9_900_090);
    assert_eq!(inss_de(1500_00), 11_520_000);
    assert_eq!(inss_de(2571_30), 21_161_730);
    assert_eq!(inss_de(3000_00), 26_306_130);
    assert_eq!(inss_de(3856_95), 36_589_550);
    assert_eq!(inss_de(5000_00), 52_592_250);
}

#[test]
fn inss_nao_salta_nos_tetos() {
    // at a ceiling the bracket above charges what the bracket under it does
    assert_eq!(inss_de(1320_00), 9_900_000);
    assert_eq!(inss_de(2571_29), 21_161_610);
    assert_eq!(inss_de(3856_94), 36_589_410);
    assert_eq!(inss_de(7507_49), 87_697_110);
    // and one centavo more adds one centavo at the rate of the bracket above
    assert_eq!(inss_de(1320_01) - inss_de(1320_00), 90);
    assert_eq!(inss_de(2571_30) - inss_de(2571_29), 120);
    assert_eq!(inss_de(3856_95) - inss_de(3856_94), 140);
    assert_eq!(inss_de(7507_50) - inss_de(7507_49), 0);
}

#[test]
fn inss_nunca_cai_nem_sobe_mais_que_quatorze_por_cento() {
    let brutos = [
        -500_00, 0, 1000_00, 1320_00, 1320_01, 2000_00, 2571_29, 2571_30, 3856_94, 3856_95,
        7507_49, 7507_50, 20000_00,
    ];
    for menor in brutos {
        for maior in brutos {
            if menor <= maior {
                let diferenca = inss_de(maior) - inss_de(menor);
                assert!(0 <= diferenca);
                assert!(diferenca <= (maior - menor) as i128 * 140);
            }
        }
    }
}

#[test]
fn inss_acima_do_teto_e_constante() {
    let no_teto = inss_de(7507_49);
    assert_eq!(no_teto, 87_697_110);
    for bruto in [7507_50, 8000_00, 10000_00, 1_000_000_00, i64::MAX] {
        assert_eq!(inss_de(bruto), no_teto);
    }
}

#[test]
fn inss_de_bruto_negativo_segue_a_primeira_faixa() {
    assert_eq!(inss_de(-100_00), -750_000);
}

#[test]
fn irrf_isento_abaixo_do_primeiro_teto() {
    // base 1650.21
    assert_eq!(irrf_de(2000_00, 1), 0);
    // base 1903.9732, the highest under 1903.98 that whole centavos give
    assert_eq!(irrf_de(2070_52, 0), 0);
    assert_eq!(irrf_de(0, 0), 0);
}

#[test]
fn irrf_logo_acima_do_primeiro_teto_segue_a_formula() {
    // base 1903.9823, at 7.5% less 142.80: a little under zero
    assert_eq!(irrf_de(2070_53, 0), -132_750);
}

#[test]
fn irrf_de_base_negativa_e_zero() {
    // base 100.00 - 7.50 - 5 * 189.59
    assert_eq!(irrf_de(100_00, 5), 0);
    assert_eq!(irrf_de(1000_00, u32::MAX), 0);
}

#[test]
fn irrf_em_cada_faixa() {
    // base 2021.80, at 7.5% less 142.80
    assert_eq!(irrf_de(2200_00, 0), 883_500_000);
    // base 2547.3487, at 7.5% less 142.80
    assert_eq!(irrf_de(3000_00, 1), 4_825_115_250);
    // base 3614.0775, at 15% less 354.80
    assert_eq!(irrf_de(4000_00, 0), 18_731_162_500);
    // base 4474.0775, at 22.5% less 636.13
    assert_eq!(irrf_de(5000_00, 0), 37_053_743_750);
    // base 7123.0289, at 27.5% less 869.36
    assert_eq!(irrf_de(8000_00, 0), 108_947_294_750);
    // base 8743.8489, at 27.5% less 869.36
    assert_eq!(irrf_de(10000_00, 2), 153_519_844_750);
}

#[test]
fn irrf_usa_o_inss_e_a_deducao_por_dependente() {
    for (bruto, dependentes) in [(3000_00, 0u32), (3000_00, 1), (3000_00, 2), (9000_00, 3)] {
        let base = bruto as i128 * 1_000 - inss_de(bruto) - 189_59 * 1_000 * dependentes as i128;
        let esperado = if base <= 1903_98 * 1_000 {
            0
        } else if base <= 2826_65 * 1_000 {
            base * 75 - 142_80 * 1_000_000
        } else if base <= 3751_05 * 1_000 {
            base * 150 - 354_80 * 1_000_000
        } else if base <= 4664_68 * 1_000 {
            base * 225 - 636_13 * 1_000_000
        } else {
            base * 275 - 869_36 * 1_000_000
        };
        assert_eq!(irrf_de(bruto, dependentes), esperado);
    }
}

#[test]
fn cenario_inss_de_mil_e_quinhentos() {
    let inss = com_bruto(1500_00).calcular_inss();
    // 115.2
    assert_eq!(inss.numerador * 10, 1152 * inss.denominador as i128);
}

#[test]
fn cenario_liquido_de_tres_mil() {
    let salario = Salario {
        bruto: 3000_00,
        dependentes: 1,
        vale_transporte: 100_00,
        vale_refeicao: 200_00,
    };
    // 3000 - 263.0613 - 48.2511525 - 100 - 200
    assert_eq!(
        salario.calcular_salario_liquido(),
        Quantia {
            numerador: 238_868_754_750,
            denominador: 100_000_000,
        }
    );
}

#[test]
fn liquido_desconta_o_transporte_ate_seis_por_cento() {
    let com_vale = |vale_transporte: i64| Salario {
        bruto: 1500_00,
        dependentes: 0,
        vale_transporte,
        vale_refeicao: 0,
    };
    // 6% of 1500.00 is 90.00: the benefit is withheld whole up to there
    assert_eq!(
        com_vale(89_99).calcular_salario_liquido().numerador,
        129_481_000_000
    );
    assert_eq!(
        com_vale(90_00).calcular_salario_liquido().numerador,
        129_480_000_000
    );
    // and no further
    assert_eq!(
        com_vale(100_00).calcular_salario_liquido().numerador,
        129_480_000_000
    );
    assert_eq!(
        com_vale(i64::MAX).calcular_salario_liquido().numerador,
        129_480_000_000
    );
}

#[test]
fn liquido_segue_a_formula() {
    let salario = Salario {
        bruto: 5000_00,
        dependentes: 0,
        vale_transporte: 500_00,
        vale_refeicao: 300_00,
    };
    let inss = salario.calcular_inss();
    let irrf = salario.calcular_irrf();
    let liquido = salario.calcular_salario_liquido();
    assert_eq!(liquido.denominador, 100_000_000);
    // 6% of 5000.00 is 300.00, under the benefit of 500.00
    assert_eq!(
        liquido.numerador,
        5000_00 * 1_000_000
            - inss.numerador * 1_000
            - irrf.numerador
            - 300_00 * 1_000_000
            - 300_00 * 1_000_000
    );
    assert_eq!(liquido.numerador, 350_354_006_250);
}

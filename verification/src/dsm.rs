//! Header of the dependency structure matrix view: the matrix' summary
//! metrics and its first cycles.
use vstd::prelude::*;
use crate::page_text::{one_decimal, push_one_decimal};
use crate::text::{decimal, div_round_even, push_decimal, push_str, round_div_even};

verus! {

/// Summary metrics of a dependency structure matrix.
#[derive(Debug, Clone, Copy)]
pub struct DsmMetrics {
    pub module_count: usize,
    pub dependency_count: usize,
    pub cycle_count: usize,
    /// Share of dependencies that respect the layering, in thousandths.
    pub layering_score: u32,
    /// Share of filled cells, in hundredths of a percent.
    pub density: u32,
    /// Propagation cost in hundredths.
    pub propagation_cost: u64,
}

/// The modules of a cycle joined by arrows.
pub open spec fn cycle_text(modules: Seq<String>) -> Seq<char>
    decreases modules.len(),
{
    if modules.len() == 0 {
        Seq::empty()
    } else if modules.len() == 1 {
        modules[0]@
    } else {
        cycle_text(modules.drop_last()) + "→"@ + modules.last()@
    }
}

/// Cycles as text, joined by commas.
pub open spec fn cycles_text(cycles: Seq<Vec<String>>) -> Seq<char>
    decreases cycles.len(),
{
    if cycles.len() == 0 {
        Seq::empty()
    } else if cycles.len() == 1 {
        cycle_text(cycles[0]@)
    } else {
        cycles_text(cycles.drop_last()) + ", "@ + cycle_text(cycles.last()@)
    }
}

/// The header of the matrix view: title, counts, layering, density and
/// propagation cost, and the first three cycles with the number of others.
pub open spec fn dsm_header(m: DsmMetrics, cycles: Seq<Vec<String>>) -> Seq<char> {
    "DEPENDENCY STRUCTURE MATRIX  [m] to exit\n\n"@ + "Modules: "@ + decimal(m.module_count as nat)
        + "  Dependencies: "@ + decimal(m.dependency_count as nat) + "  Cycles: "@ + decimal(m.cycle_count as nat)
        + "\n"@ + "Layering: "@ + decimal(div_round_even(m.layering_score as nat, 10)) + "%  Density: "@
        + one_decimal(m.density as nat) + "%  Propagation: "@ + one_decimal(m.propagation_cost as nat) + "\n"@
        + if cycles.len() > 0 {
        "\nCycles: "@ + cycles_text(if cycles.len() > 3 { cycles.take(3) } else { cycles }) + if cycles.len() > 3 {
            " (+"@ + decimal((cycles.len() - 3) as nat) + " more)"@
        } else {
            Seq::empty()
        } + "\n"@
    } else {
        Seq::empty()
    }
}

fn push_cycle(out: &mut String, modules: &Vec<String>)
    ensures
        final(out)@ == old(out)@ + cycle_text(modules@),
{
    let ghost start = out@;
    let mut i: usize = 0;
    while i < modules.len()
        invariant
            i <= modules.len(),
            out@ == start + cycle_text(modules@.take(i as int)),
        decreases modules.len() - i,
    {
        if i > 0 {
            push_str(out, "→");
        }
        push_str(out, modules[i].as_str());
        proof {
            assert(modules@.take(i + 1).drop_last() =~= modules@.take(i as int));
            assert(modules@.take(i + 1).last() == modules@[i as int]);
            if i == 0 {
                assert(modules@.take(1).len() == 1);
            }
        }
        assert(out@ =~= start + cycle_text(modules@.take(i + 1)));
        i = i + 1;
    }
    assert(modules@.take(modules@.len() as int) =~= modules@);
}

/// Text of the matrix view's header.
pub fn dsm_header_text(metrics: &DsmMetrics, cycles: &Vec<Vec<String>>) -> (r: String)
    ensures
        r@ == dsm_header(*metrics, cycles@),
{
    let mut out = String::new();
    push_str(&mut out, "DEPENDENCY STRUCTURE MATRIX  [m] to exit\n\n");
    push_str(&mut out, "Modules: ");
    push_decimal(&mut out, metrics.module_count as u128);
    push_str(&mut out, "  Dependencies: ");
    push_decimal(&mut out, metrics.dependency_count as u128);
    push_str(&mut out, "  Cycles: ");
    push_decimal(&mut out, metrics.cycle_count as u128);
    push_str(&mut out, "\n");
    push_str(&mut out, "Layering: ");
    push_decimal(&mut out, round_div_even(metrics.layering_score as u128, 10));
    push_str(&mut out, "%  Density: ");
    push_one_decimal(&mut out, metrics.density as u128);
    push_str(&mut out, "%  Propagation: ");
    push_one_decimal(&mut out, metrics.propagation_cost as u128);
    push_str(&mut out, "\n");
    let ghost head = out@;
    if cycles.len() > 0 {
        push_str(&mut out, "\nCycles: ");
        let shown: usize = if cycles.len() > 3 {
            3
        } else {
            cycles.len()
        };
        let ghost list_start = out@;
        let mut i: usize = 0;
        while i < shown
            invariant
                shown <= cycles.len(),
                i <= shown,
                out@ == list_start + cycles_text(cycles@.take(i as int)),
            decreases shown - i,
        {
            if i > 0 {
                push_str(&mut out, ", ");
            }
            push_cycle(&mut out, &cycles[i]);
            proof {
                assert(cycles@.take(i + 1).drop_last() =~= cycles@.take(i as int));
                assert(cycles@.take(i + 1).last() == cycles@[i as int]);
            }
            assert(out@ =~= list_start + cycles_text(cycles@.take(i + 1)));
            i = i + 1;
        }
        assert(cycles@.take(shown as int) =~= (if cycles@.len() > 3 { cycles@.take(3) } else { cycles@ }));
        if cycles.len() > 3 {
            push_str(&mut out, " (+");
            push_decimal(&mut out, (cycles.len() - 3) as u128);
            push_str(&mut out, " more)");
        }
        push_str(&mut out, "\n");
    }
    assert(out@ =~= dsm_header(*metrics, cycles@));
    out
}

} // verus!

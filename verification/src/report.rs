//! Report rendering: the markdown threat report over analyzed events, and
//! the one-line CSV record the event monitor appends per event.

use vstd::prelude::*;

use crate::decision_engine::AnalysisResult;
use crate::requests::{dec_digits, dec_string};

verus! {

/// Comma-separated concatenation, no trailing separator.
pub open spec fn join_comma(parts: Seq<Seq<char>>) -> Seq<char>
    decreases parts.len(),
{
    if parts.len() == 0 {
        Seq::empty()
    } else if parts.len() == 1 {
        parts[0]
    } else {
        join_comma(parts.drop_last()) + ", "@ + parts.last()
    }
}

/// One report entry: the event's action, its risk score, and the
/// recommended actions joined by commas.
pub open spec fn md_entry(r: AnalysisResult) -> Seq<char> {
    "### Evento "@ + r.event.action@ + "\n- **Risco**: "@ + dec_digits(r.risk_score as nat)
        + "\n- **Ações**: "@ + join_comma(r.recommended_actions@.map_values(|s: String| s@))
        + "\n\n"@
}

/// The entries of the first `k` results, in order.
pub open spec fn md_entries_upto(rs: Seq<AnalysisResult>, k: int) -> Seq<char>
    decreases k,
{
    if k <= 0 {
        Seq::empty()
    } else {
        md_entries_upto(rs, k - 1) + md_entry(rs[k - 1])
    }
}

/// The whole report: the heading and summary, the event total, then one
/// entry per result.
pub open spec fn spec_md_report(rs: Seq<AnalysisResult>) -> Seq<char> {
    "# Relatório de Ameaças Detectadas\n\n## Resumo Executivo\n- Total de eventos: "@
        + dec_digits(rs.len()) + "\n\n## Análise Detalhada\n"@ + md_entries_upto(
        rs,
        rs.len() as int,
    )
}

fn append_joined(report: &mut String, parts: &Vec<String>)
    ensures
        final(report)@ == old(report)@ + join_comma(parts@.map_values(|s: String| s@)),
{
    let n = parts.len();
    let mut j: usize = 0;
    proof {
        assert(parts@.map_values(|s: String| s@).subrange(0, 0) =~= Seq::<Seq<char>>::empty());
        assert(old(report)@ + join_comma(Seq::<Seq<char>>::empty()) =~= old(report)@);
    }
    while j < n
        invariant
            n == parts@.len(),
            j <= n,
            report@ == old(report)@ + join_comma(
                parts@.map_values(|s: String| s@).subrange(0, j as int),
            ),
        decreases n - j,
    {
        if j > 0 {
            report.append(", ");
        }
        report.append(parts[j].as_str());
        proof {
            let m = parts@.map_values(|s: String| s@);
            assert(m.subrange(0, j + 1).drop_last() =~= m.subrange(0, j as int));
            assert(m.subrange(0, j + 1).last() == m[j as int]);
            assert(report@ =~= old(report)@ + join_comma(m.subrange(0, j + 1)));
        }
        j += 1;
    }
    proof {
        let m = parts@.map_values(|s: String| s@);
        assert(m.subrange(0, n as int) =~= m);
    }
}

/// Render the markdown threat report over the given results.
pub fn generate_md_report(results: Vec<AnalysisResult>) -> (r: String)
    ensures
        r@ == spec_md_report(results@),
{
    let mut report = String::from_str(
        "# Relatório de Ameaças Detectadas\n\n## Resumo Executivo\n- Total de eventos: ",
    );
    report.append(dec_string(results.len() as u64).as_str());
    report.append("\n\n## Análise Detalhada\n");
    let ghost prefix = report@;
    let n = results.len();
    let mut i: usize = 0;
    proof {
        assert(prefix + md_entries_upto(results@, 0) =~= prefix);
    }
    while i < n
        invariant
            n == results@.len(),
            i <= n,
            report@ == prefix + md_entries_upto(results@, i as int),
        decreases n - i,
    {
        report.append("### Evento ");
        report.append(results[i].event.action.as_str());
        report.append("\n- **Risco**: ");
        report.append(dec_string(results[i].risk_score).as_str());
        report.append("\n- **Ações**: ");
        append_joined(&mut report, &results[i].recommended_actions);
        report.append("\n\n");
        proof {
            assert(report@ =~= prefix + md_entries_upto(results@, i + 1));
        }
        i += 1;
    }
    proof {
        assert(report@ =~= spec_md_report(results@));
    }
    report
}

/// One spreadsheet cell's content: text or a number.
#[derive(Debug, PartialEq)]
pub enum CellContent {
    Text(String),
    Number(u64),
}

/// The cell layout of the spreadsheet report: a title row — timestamp,
/// action, risk score — then one row per result carrying its event's
/// timestamp and action and its risk score.  The writer that turns these
/// plain (row, column, content) triples into a workbook stands outside the
/// library.
pub fn excel_report_cells(results: &Vec<AnalysisResult>) -> (cells: Vec<(u32, u16, CellContent)>)
    requires
        results@.len() + 1 <= u32::MAX,
    ensures
        cells@.len() == 3 + results@.len() * 3,
        cells@[0].0 == 0 && cells@[0].1 == 0 && (cells@[0].2 matches CellContent::Text(s) && s@
            == "Timestamp"@),
        cells@[1].0 == 0 && cells@[1].1 == 1 && (cells@[1].2 matches CellContent::Text(s) && s@
            == "Ação"@),
        cells@[2].0 == 0 && cells@[2].1 == 2 && (cells@[2].2 matches CellContent::Text(s) && s@
            == "Score de Risco"@),
        forall|i: int|
            0 <= i < results@.len() ==> {
                &&& #[trigger] cells@[3 + 3 * i] == (((i + 1) as u32, 0u16, CellContent::Text(
                    results@[i].event.timestamp,
                )))
                &&& cells@[3 + 3 * i + 1] == (((i + 1) as u32, 1u16, CellContent::Text(
                    results@[i].event.action,
                )))
                &&& cells@[3 + 3 * i + 2] == (((i + 1) as u32, 2u16, CellContent::Number(
                    results@[i].risk_score,
                )))
            },
{
    let mut cells: Vec<(u32, u16, CellContent)> = Vec::new();
    cells.push((0, 0, CellContent::Text(String::from_str("Timestamp"))));
    cells.push((0, 1, CellContent::Text(String::from_str("Ação"))));
    cells.push((0, 2, CellContent::Text(String::from_str("Score de Risco"))));
    let n = results.len();
    let mut i: usize = 0;
    while i < n
        invariant
            n == results@.len(),
            n + 1 <= u32::MAX,
            i <= n,
            cells@.len() == 3 + i * 3,
            cells@[0].0 == 0 && cells@[0].1 == 0 && (cells@[0].2 matches CellContent::Text(s)
                && s@ == "Timestamp"@),
            cells@[1].0 == 0 && cells@[1].1 == 1 && (cells@[1].2 matches CellContent::Text(s)
                && s@ == "Ação"@),
            cells@[2].0 == 0 && cells@[2].1 == 2 && (cells@[2].2 matches CellContent::Text(s)
                && s@ == "Score de Risco"@),
            forall|j: int|
                0 <= j < i ==> {
                    &&& #[trigger] cells@[3 + 3 * j] == (((j + 1) as u32, 0u16, CellContent::Text(
                        results@[j].event.timestamp,
                    )))
                    &&& cells@[3 + 3 * j + 1] == (((j + 1) as u32, 1u16, CellContent::Text(
                        results@[j].event.action,
                    )))
                    &&& cells@[3 + 3 * j + 2] == (((j + 1) as u32, 2u16, CellContent::Number(
                        results@[j].risk_score,
                    )))
                },
        decreases n - i,
    {
        let row = (i as u32) + 1;
        cells.push((row, 0, CellContent::Text(results[i].event.timestamp.clone())));
        cells.push((row, 1, CellContent::Text(results[i].event.action.clone())));
        cells.push((row, 2, CellContent::Number(results[i].risk_score)));
        i += 1;
    }
    cells
}

/// One CSV line of the event log: timestamp, action, actor and the encoded
/// event, comma separated.
pub fn event_csv_record(timestamp: u64, action: &str, actor_id: &str, encoded: &str) -> (r: String)
    ensures
        r@ == dec_digits(timestamp as nat) + ","@ + action@ + ","@ + actor_id@ + ","@ + encoded@
            + "\n"@,
{
    let mut r = dec_string(timestamp);
    r.append(",");
    r.append(action);
    r.append(",");
    r.append(actor_id);
    r.append(",");
    r.append(encoded);
    r.append("\n");
    r
}

} // verus!

//! The log sink model: the header line and the point rows, rendered as
//! verified strings and collected in order. Writing the lines out is the
//! caller's concern; the sink contract here is that a flush appends its
//! records' rows in order, behind a header that appears exactly once, at
//! the top, when the first flush finds the log empty.

use vstd::prelude::*;
use vstd::string::StringExecFns;
use crate::format::{milli_rep, milli_string};
use crate::scoring::PointRecord;

verus! {

/// The header line for a log of the two named players.
pub open spec fn spec_header(p1: Seq<char>, p2: Seq<char>) -> Seq<char> {
    "server,receiver,point_score,game_score,set_score,"@ + p1 + "_match_win_prob,"@ + p2
        + "_match_win_prob,"@ + p1 + "_set_win_prob,"@ + p2 + "_set_win_prob,"@ + p1
        + "_game_win_prob,"@ + p2 + "_game_win_prob,"@ + p1 + "_next_point_win_prob,"@ + p2
        + "_next_point_win_prob,"@ + "next_serve_ace_prob,tiebreak_prob"@
}

/// One row of the log: the fifteen fields of a point record joined by
/// commas, probabilities written with three decimal places.
pub open spec fn spec_row(r: PointRecord) -> Seq<char> {
    r.server@ + ","@ + r.receiver@ + ","@ + r.point_score@ + ","@ + r.game_score@ + ","@
        + r.set_score@ + ","@ + milli_rep(r.match_win_p1 as int) + ","@ + milli_rep(
        r.match_win_p2 as int,
    ) + ","@ + milli_rep(r.set_win_p1 as int) + ","@ + milli_rep(r.set_win_p2 as int) + ","@
        + milli_rep(r.game_win_p1 as int) + ","@ + milli_rep(r.game_win_p2 as int) + ","@
        + milli_rep(r.next_point_p1 as int) + ","@ + milli_rep(r.next_point_p2 as int) + ","@
        + milli_rep(r.ace_prob as int) + ","@ + milli_rep(r.tiebreak_prob as int)
}

/// Render the header line.
pub fn header_line(p1_name: &str, p2_name: &str) -> (r: String)
    ensures
        r@ == spec_header(p1_name@, p2_name@),
{
    let mut s = String::from_str("server,receiver,point_score,game_score,set_score,");
    s.append(p1_name);
    s.append("_match_win_prob,");
    s.append(p2_name);
    s.append("_match_win_prob,");
    s.append(p1_name);
    s.append("_set_win_prob,");
    s.append(p2_name);
    s.append("_set_win_prob,");
    s.append(p1_name);
    s.append("_game_win_prob,");
    s.append(p2_name);
    s.append("_game_win_prob,");
    s.append(p1_name);
    s.append("_next_point_win_prob,");
    s.append(p2_name);
    s.append("_next_point_win_prob,");
    s.append("next_serve_ace_prob,tiebreak_prob");
    proof {
        assert(s@ =~= spec_header(p1_name@, p2_name@));
    }
    s
}

/// Render one row.
pub fn row_line(rec: &PointRecord) -> (r: String)
    ensures
        r@ == spec_row(*rec),
{
    let mut s = rec.server.clone();
    s.append(",");
    s.append(rec.receiver.as_str());
    s.append(",");
    s.append(rec.point_score.as_str());
    s.append(",");
    s.append(rec.game_score.as_str());
    s.append(",");
    s.append(rec.set_score.as_str());
    s.append(",");
    let v = milli_string(rec.match_win_p1);
    s.append(v.as_str());
    s.append(",");
    let v = milli_string(rec.match_win_p2);
    s.append(v.as_str());
    s.append(",");
    let v = milli_string(rec.set_win_p1);
    s.append(v.as_str());
    s.append(",");
    let v = milli_string(rec.set_win_p2);
    s.append(v.as_str());
    s.append(",");
    let v = milli_string(rec.game_win_p1);
    s.append(v.as_str());
    s.append(",");
    let v = milli_string(rec.game_win_p2);
    s.append(v.as_str());
    s.append(",");
    let v = milli_string(rec.next_point_p1);
    s.append(v.as_str());
    s.append(",");
    let v = milli_string(rec.next_point_p2);
    s.append(v.as_str());
    s.append(",");
    let v = milli_string(rec.ace_prob);
    s.append(v.as_str());
    s.append(",");
    let v = milli_string(rec.tiebreak_prob);
    s.append(v.as_str());
    proof {
        assert(s@ =~= spec_row(*rec));
    }
    s
}

/// An in-memory log of rendered lines, appended to in order.
pub struct CsvLog {
    pub lines: Vec<String>,
}

/// How many point rows the log holds: every line but the header.
pub open spec fn spec_row_count(g: CsvLog) -> int {
    if g.lines@.len() == 0 {
        0
    } else {
        g.lines@.len() - 1
    }
}

impl CsvLog {
    /// An empty log.
    pub fn new() -> (g: CsvLog)
        ensures
            g.lines@.len() == 0,
    {
        CsvLog { lines: Vec::new() }
    }

    /// Append one group of records. The header is written exactly once, at
    /// the top, by whichever flush finds the log empty — however many
    /// flushes follow, every other line is the row of exactly one record,
    /// in order, so the row count always equals the points flushed so far.
    pub fn flush(&mut self, p1_name: &str, p2_name: &str, records: &Vec<PointRecord>)
        ensures
            spec_row_count(*final(self)) == spec_row_count(*old(self)) + records@.len(),
            old(self).lines@.len() == 0 ==> final(self).lines@.len() == records@.len() + 1,
            old(self).lines@.len() > 0 ==> final(self).lines@.len() == old(self).lines@.len()
                + records@.len(),
            old(self).lines@.len() == 0 ==> final(self).lines@[0]@ == spec_header(
                p1_name@,
                p2_name@,
            ),
            forall|i: int|
                0 <= i < old(self).lines@.len() ==> final(self).lines@[i] == #[trigger] old(
                    self,
                ).lines@[i],
            forall|j: int|
                0 <= j < records@.len() ==> #[trigger] final(self).lines@[spec_row_count(
                    *old(self),
                ) + 1 + j]@ == spec_row(records@[j]),
    {
        if self.lines.len() == 0 {
            let h = header_line(p1_name, p2_name);
            self.lines.push(h);
        }
        let mut j: usize = 0;
        while j < records.len()
            invariant
                j <= records@.len(),
                self.lines@.len() == spec_row_count(*old(self)) + 1 + j,
                old(self).lines@.len() == 0 ==> self.lines@[0]@ == spec_header(
                    p1_name@,
                    p2_name@,
                ),
                forall|i: int|
                    0 <= i < old(self).lines@.len() ==> self.lines@[i] == #[trigger] old(
                        self,
                    ).lines@[i],
                forall|jj: int|
                    0 <= jj < j ==> #[trigger] self.lines@[spec_row_count(*old(self)) + 1 + jj]@
                        == spec_row(records@[jj]),
            decreases records@.len() - j,
        {
            let row = row_line(&records[j]);
            self.lines.push(row);
            j = j + 1;
        }
    }
}

} // verus!

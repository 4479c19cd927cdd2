//! Per-fetch progress state and the status-line renderer.
//!
//! One `State` lives for the duration of a single clone call. The transport
//! re-enters the engine synchronously at every progress tick, through exactly
//! two callbacks — one for the network transfer, one for the local checkout —
//! which record the new counters and render one status line. All ticks happen
//! on the calling thread, one at a time; the state is never shared across
//! threads.
//!
//! While the transfer is under way the line shows three side-by-side meters
//! (network, index, checkout) and ends in a carriage return, so each tick
//! overwrites the last. The first tick at which every object has been
//! received wraps the line once, and from then on a shorter delta summary is
//! overwritten in place.

use vstd::prelude::*;

use vstd::pervasive::unreached;

use crate::text::{dec_of, dec_str, pad_left, padded_left, pct_of, percent};

verus! {

/// The network counters of one transfer tick, as the transport reports them.
#[derive(Clone, Copy)]
pub struct Stats {
    pub received_objects: usize,
    pub total_objects: usize,
    pub received_bytes: usize,
    pub indexed_objects: usize,
    pub indexed_deltas: usize,
    pub total_deltas: usize,
}

/// The progress of one fetch: the last network counters, the checkout
/// counters, and whether the one line-wrap at the end of the transfer phase
/// has already been emitted.
pub struct State {
    pub progress: Option<Stats>,
    pub total: usize,
    pub current: usize,
    pub path: Option<String>,
    pub newline: bool,
}

/// One rendered status update: the line to print, overwriting the current
/// one, and whether a line break must be emitted first (exactly once per
/// fetch, when the transfer first reaches completion).
pub struct Rendered {
    pub newline_first: bool,
    pub line: String,
}

/// The checkout path shown at the end of the meter line; empty when the
/// transport named none.
pub open spec fn path_view(p: Option<String>) -> Seq<char> {
    match p {
        Some(s) => s@,
        None => Seq::empty(),
    }
}

/// The three-meter status line shown while objects are still arriving:
/// network percentage, kilobytes and object counts, then index percentage
/// and counts, then checkout percentage, file counts and current path.
pub open spec fn meter_line_spec(stats: Stats, current: nat, total: nat, path: Seq<char>) -> Seq<
    char,
> {
    "\tnet "@ + padded_left(dec_of(pct_of(stats.received_objects as nat, stats.total_objects as nat)), 3)
        + "% ("@ + padded_left(dec_of((stats.received_bytes as nat) / 1024), 4) + " kb, "@
        + padded_left(dec_of(stats.received_objects as nat), 5) + "/"@
        + padded_left(dec_of(stats.total_objects as nat), 5) + ")  /  idx "@
        + padded_left(dec_of(pct_of(stats.indexed_objects as nat, stats.total_objects as nat)), 3)
        + "% ("@ + padded_left(dec_of(stats.indexed_objects as nat), 5) + "/"@
        + padded_left(dec_of(stats.total_objects as nat), 5) + ")  /  chk "@
        + padded_left(dec_of(pct_of(current, total)), 3) + "% ("@ + padded_left(
        dec_of(current),
        4,
    ) + "/"@ + padded_left(dec_of(total), 4) + ") "@ + path + "\r"@
}

/// The delta summary line shown once every object has been received.
pub open spec fn delta_line_spec(stats: Stats) -> Seq<char> {
    "\tprogress: "@ + dec_of(stats.indexed_deltas as nat) + "/"@ + dec_of(
        stats.total_deltas as nat,
    ) + "\r"@
}

impl State {
    /// A fresh state, opened just before one clone call starts.
    pub fn new() -> (r: State)
        ensures
            r.progress is None,
            r.total == 0,
            r.current == 0,
            r.path is None,
            r.newline == false,
    {
        State { progress: None, total: 0, current: 0, path: None, newline: false }
    }

    /// The transfer callback's record: the latest network counters.
    pub fn on_transfer(&mut self, stats: Stats)
        ensures
            final(self).progress == Some(stats),
            final(self).total == old(self).total,
            final(self).current == old(self).current,
            final(self).path == old(self).path,
            final(self).newline == old(self).newline,
    {
        self.progress = Some(stats);
    }

    /// The checkout callback's record: file counts and the file being
    /// written.
    pub fn on_checkout(&mut self, path: Option<String>, current: usize, total: usize)
        ensures
            final(self).progress == old(self).progress,
            final(self).total == total,
            final(self).current == current,
            final(self).path == path,
            final(self).newline == old(self).newline,
    {
        self.path = path;
        self.current = current;
        self.total = total;
    }

    /// Renders the current state as one status line. Until every object has
    /// been received this is the three-meter line; from the first tick at
    /// which the transfer is complete it is the delta summary, preceded
    /// exactly once by a line break. Rendering never divides by zero: a
    /// percentage with a zero total is shown as `0`.
    pub fn render(&mut self) -> (r: Rendered)
        requires
            old(self).progress is Some,
        ensures
            final(self).progress == old(self).progress,
            final(self).total == old(self).total,
            final(self).current == old(self).current,
            final(self).path == old(self).path,
            match old(self).progress {
                Some(stats) => if stats.received_objects == stats.total_objects {
                    &&& r.newline_first == !old(self).newline
                    &&& final(self).newline == true
                    &&& r.line@ == delta_line_spec(stats)
                } else {
                    &&& r.newline_first == false
                    &&& final(self).newline == old(self).newline
                    &&& r.line@ == meter_line_spec(
                        stats,
                        old(self).current as nat,
                        old(self).total as nat,
                        path_view(old(self).path),
                    )
                },
                None => false,
            },
    {
        let stats = match self.progress {
            Some(s) => s,
            None => unreached(),
        };
        if stats.received_objects == stats.total_objects {
            let newline_first = !self.newline;
            self.newline = true;
            let mut line = "\tprogress: ".to_owned();
            let d = dec_str(stats.indexed_deltas);
            line.append(d.as_str());
            line.append("/");
            let t = dec_str(stats.total_deltas);
            line.append(t.as_str());
            line.append("\r");
            Rendered { newline_first, line }
        } else {
            let net_pct = percent(stats.received_objects, stats.total_objects);
            let idx_pct = percent(stats.indexed_objects, stats.total_objects);
            let co_pct = percent(self.current, self.total);
            let kbytes = stats.received_bytes / 1024;
            let mut line = "\tnet ".to_owned();
            let net_pct_s = dec_str(net_pct);
            let piece = pad_left(net_pct_s.as_str(), 3);
            line.append(piece.as_str());
            line.append("% (");
            let kbytes_s = dec_str(kbytes);
            let piece = pad_left(kbytes_s.as_str(), 4);
            line.append(piece.as_str());
            line.append(" kb, ");
            let received_s = dec_str(stats.received_objects);
            let piece = pad_left(received_s.as_str(), 5);
            line.append(piece.as_str());
            line.append("/");
            let total_s = dec_str(stats.total_objects);
            let piece = pad_left(total_s.as_str(), 5);
            line.append(piece.as_str());
            line.append(")  /  idx ");
            let idx_pct_s = dec_str(idx_pct);
            let piece = pad_left(idx_pct_s.as_str(), 3);
            line.append(piece.as_str());
            line.append("% (");
            let indexed_s = dec_str(stats.indexed_objects);
            let piece = pad_left(indexed_s.as_str(), 5);
            line.append(piece.as_str());
            line.append("/");
            let piece = pad_left(total_s.as_str(), 5);
            line.append(piece.as_str());
            line.append(")  /  chk ");
            let co_pct_s = dec_str(co_pct);
            let piece = pad_left(co_pct_s.as_str(), 3);
            line.append(piece.as_str());
            line.append("% (");
            let current_s = dec_str(self.current);
            let piece = pad_left(current_s.as_str(), 4);
            line.append(piece.as_str());
            line.append("/");
            let co_total_s = dec_str(self.total);
            let piece = pad_left(co_total_s.as_str(), 4);
            line.append(piece.as_str());
            line.append(") ");
            match &self.path {
                Some(p) => {
                    line.append(p.as_str());
                },
                None => {
                    proof {
                        reveal_strlit("");
                        assert(""@ =~= path_view(self.path));
                    }
                    line.append("");
                },
            }
            line.append("\r");
            Rendered { newline_first: false, line }
        }
    }
}

} // verus!

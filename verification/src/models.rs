//! Hardware models and their text report.
//!
//! A model names a hardware unit, its release year, and the ordered list
//! of voice banks it supports.  Its report is line-oriented: a header
//! line, every bank's voice rows in listed order, and, when totals are
//! requested, a trailing summary line with the aggregate tally.

use vstd::prelude::*;

use crate::text::decimal;
use crate::text::spec_decimal;
use crate::voices::lemma_tally_total;
use crate::voices::spec_tally;
use crate::voices::spec_total_line;
use crate::voices::spec_voice_rows;
use crate::voices::CountsView;
use crate::voices::VoiceCounts;
use crate::voices::Voices;

verus! {

/// A named hardware unit and the voice banks it supports.
pub struct Model {
    /// Model name, e.g. `"MU5"`.
    pub name: String,
    /// Release year.
    pub year: u16,
    /// The voice banks this model supports, in display order.
    pub voicesets: Vec<Voices>,
}

/// The aggregate tally of a list of banks: the banks' tallies combined
/// in listed order.
pub open spec fn spec_model_tally(banks: Seq<Voices>) -> CountsView
    decreases banks.len(),
{
    if banks.len() == 0 {
        CountsView::zero()
    } else {
        spec_model_tally(banks.drop_last()).combine(spec_tally(banks.last().0@))
    }
}

/// The voice rows of a list of banks, bank by bank in listed order.
pub open spec fn spec_bank_rows(banks: Seq<Voices>) -> Seq<char>
    decreases banks.len(),
{
    if banks.len() == 0 {
        Seq::empty()
    } else {
        spec_bank_rows(banks.drop_last()) + spec_voice_rows(banks.last().0@)
    }
}

/// The report's header line: manufacturer, model name, release year.
pub open spec fn spec_header(m: Model) -> Seq<char> {
    "Yamaha "@ + m.name@ + " ("@ + spec_decimal(m.year as int) + "):\n"@
}

/// The whole report: header, every bank's voice rows, and, when
/// `include_totals` is set, the summary line.
pub open spec fn spec_report(m: Model, include_totals: bool) -> Seq<char> {
    spec_header(m) + spec_bank_rows(m.voicesets@) + (if include_totals {
        spec_total_line(spec_model_tally(m.voicesets@))
    } else {
        Seq::<char>::empty()
    })
}

/// A prefix of the bank list never tallies more voices in total than the
/// whole list.
pub proof fn lemma_model_tally_prefix(banks: Seq<Voices>, j: int)
    requires
        0 <= j <= banks.len(),
    ensures
        spec_model_tally(banks.take(j)).total() <= spec_model_tally(banks).total(),
    decreases banks.len() - j,
{
    if j == banks.len() {
        assert(banks.take(j) =~= banks);
    } else {
        lemma_model_tally_prefix(banks, j + 1);
        assert(banks.take(j + 1).drop_last() =~= banks.take(j));
        assert(banks.take(j + 1).last() == banks[j]);
    }
}

impl Model {
    /// The total number of voice records over all of this model's banks.
    pub open spec fn spec_total_voices(self) -> nat {
        spec_model_tally(self.voicesets@).total()
    }

    /// Renders this model's report.  Every voice of every bank appears on
    /// a row of its own, in listed order, below the header line; with
    /// `include_totals` the aggregate tally closes the report.
    pub fn render(&self, include_totals: bool) -> (out: String)
        requires
            self.spec_total_voices() <= u16::MAX,
        ensures
            out@ == spec_report(*self, include_totals),
    {
        let mut out = String::new();
        out.append("Yamaha ");
        out.append(self.name.as_str());
        out.append(" (");
        let year = decimal(self.year);
        out.append(year.as_str());
        out.append("):\n");
        proof {
            assert(out@ =~= spec_header(*self));
        }
        let mut total: VoiceCounts = Default::default();
        for i in 0..self.voicesets.len()
            invariant
                total@ == spec_model_tally(self.voicesets@.take(i as int)),
                out@ == spec_header(*self) + spec_bank_rows(self.voicesets@.take(i as int)),
                self.spec_total_voices() <= u16::MAX,
        {
            proof {
                let banks = self.voicesets@;
                assert(banks.take(i as int + 1).drop_last() =~= banks.take(i as int));
                assert(banks.take(i as int + 1).last() == banks[i as int]);
                lemma_model_tally_prefix(banks, i as int + 1);
                lemma_tally_total(banks[i as int].0@);
            }
            let bank = &self.voicesets[i];
            let counts = bank.voicecount();
            total = total.combine(counts);
            let rows = bank.render();
            out.append(rows.as_str());
            proof {
                assert(out@ =~= spec_header(*self) + spec_bank_rows(
                    self.voicesets@.take(i as int + 1),
                ));
            }
        }
        proof {
            assert(self.voicesets@.take(self.voicesets@.len() as int) =~= self.voicesets@);
        }
        if include_totals {
            let line = total.render();
            out.append(line.as_str());
            proof {
                assert(out@ =~= spec_report(*self, include_totals));
            }
        } else {
            proof {
                assert(out@ =~= spec_report(*self, include_totals));
            }
        }
        out
    }
}

} // verus!

//! Voice records, voice banks, and per-category voice tallies.
//!
//! A voice is classified by its bank select MSB alone: MSB 127 is a
//! percussion kit, MSB 64 is a sound effect, and every other value is a
//! melodic instrument.  A bank's tally counts its voices per category;
//! tallies combine by per-category addition, a commutative monoid whose
//! identity is the all-zero tally.

use vstd::prelude::*;

use crate::text::decimal;
use crate::text::padded3;
use crate::text::spec_decimal;
use crate::text::spec_padded3;

verus! {

/// The category of a voice, derived from its bank select MSB.
#[derive(Clone, Copy, PartialEq, Eq, Structural, Debug)]
pub enum Category {
    Instrument,
    Sfx,
    Kit,
}

/// The category a voice with bank select MSB `msb` belongs to.
pub open spec fn spec_category(msb: u8) -> Category {
    if msb == 127 {
        Category::Kit
    } else if msb == 64 {
        Category::Sfx
    } else {
        Category::Instrument
    }
}

/// A single selectable sound: bank select values, program number, and a
/// display name.
pub struct Voice {
    /// MIDI Bank Select MSB, 0-based, 0 to 127.
    pub msb: u8,
    /// MIDI Bank Select LSB, 0-based, 0 to 127.
    pub lsb: u8,
    /// MIDI Program Change value plus one, 1-based, 1 to 128.
    pub prg: u8,
    /// Non-empty display label.
    pub name: String,
}

/// The catalog row for a voice: the three numeric fields, each as three
/// zero-padded digits and separated by dashes, then a space and the name.
pub open spec fn spec_voice_row(v: Voice) -> Seq<char> {
    spec_padded3(v.msb as int) + "-"@ + spec_padded3(v.lsb as int) + "-"@ + spec_padded3(
        v.prg as int,
    ) + " "@ + v.name@
}

impl Voice {
    /// Field ranges of a well-formed catalog record.
    pub open spec fn wf(self) -> bool {
        &&& self.msb <= 127
        &&& self.lsb <= 127
        &&& 1 <= self.prg <= 128
        &&& self.name@.len() > 0
    }

    /// Builds a catalog record from its field values.
    pub fn new(msb: u8, lsb: u8, prg: u8, name: &str) -> (v: Voice)
        requires
            msb <= 127,
            lsb <= 127,
            1 <= prg <= 128,
            name@.len() > 0,
        ensures
            v.msb == msb,
            v.lsb == lsb,
            v.prg == prg,
            v.name@ == name@,
            v.wf(),
    {
        Voice { msb, lsb, prg, name: name.to_owned() }
    }

    /// The category this voice belongs to.
    pub fn category(&self) -> (c: Category)
        ensures
            c == spec_category(self.msb),
    {
        match self.msb {
            127 => Category::Kit,
            64 => Category::Sfx,
            _ => Category::Instrument,
        }
    }

    /// Renders this voice's catalog row, e.g. `"000-000-001 Grand Piano"`.
    pub fn render(&self) -> (out: String)
        ensures
            out@ == spec_voice_row(*self),
    {
        let mut out = padded3(self.msb);
        out.append("-");
        let lsb = padded3(self.lsb);
        out.append(lsb.as_str());
        out.append("-");
        let prg = padded3(self.prg);
        out.append(prg.as_str());
        out.append(" ");
        out.append(self.name.as_str());
        proof {
            assert(out@ =~= spec_voice_row(*self));
        }
        out
    }
}

/// An ordered voice bank: one named standard's sequence of voices.
pub struct Voices(pub Vec<Voice>);

/// A voice tally at the specification level: one count per category,
/// as unbounded naturals.
pub ghost struct CountsView {
    pub instruments: nat,
    pub sfx: nat,
    pub kits: nat,
}

impl CountsView {
    /// The sum of all category counts.
    pub open spec fn total(self) -> nat {
        self.instruments + self.sfx + self.kits
    }

    /// The all-zero tally, the identity of `combine`.
    pub open spec fn zero() -> CountsView {
        CountsView { instruments: 0, sfx: 0, kits: 0 }
    }

    /// Per-category addition of two tallies.
    pub open spec fn combine(self, other: CountsView) -> CountsView {
        CountsView {
            instruments: self.instruments + other.instruments,
            sfx: self.sfx + other.sfx,
            kits: self.kits + other.kits,
        }
    }

    /// This tally with the count of `v`'s category raised by one.
    pub open spec fn add_voice(self, v: Voice) -> CountsView {
        match spec_category(v.msb) {
            Category::Instrument => CountsView { instruments: self.instruments + 1, ..self },
            Category::Sfx => CountsView { sfx: self.sfx + 1, ..self },
            Category::Kit => CountsView { kits: self.kits + 1, ..self },
        }
    }
}

/// The tally of a sequence of voices: each voice counted once, under the
/// category its bank select MSB derives.
pub open spec fn spec_tally(voices: Seq<Voice>) -> CountsView
    decreases voices.len(),
{
    if voices.len() == 0 {
        CountsView::zero()
    } else {
        spec_tally(voices.drop_last()).add_voice(voices.last())
    }
}

/// Tallying counts every voice exactly once: a tally's total equals the
/// number of voices tallied.
pub proof fn lemma_tally_total(voices: Seq<Voice>)
    ensures
        spec_tally(voices).total() == voices.len(),
    decreases voices.len(),
{
    if voices.len() > 0 {
        lemma_tally_total(voices.drop_last());
    }
}

/// Combining tallies is associative.
pub proof fn lemma_combine_assoc(t1: CountsView, t2: CountsView, t3: CountsView)
    ensures
        t1.combine(t2).combine(t3) == t1.combine(t2.combine(t3)),
{
}

/// Combining tallies is commutative.
pub proof fn lemma_combine_comm(t1: CountsView, t2: CountsView)
    ensures
        t1.combine(t2) == t2.combine(t1),
{
}

/// The all-zero tally is the identity of `combine`.
pub proof fn lemma_combine_zero(t: CountsView)
    ensures
        t.combine(CountsView::zero()) == t,
        CountsView::zero().combine(t) == t,
{
}

/// A tally's category counts add up to its total.
pub proof fn lemma_tally_parts(voices: Seq<Voice>)
    ensures
        spec_tally(voices).instruments + spec_tally(voices).kits + spec_tally(voices).sfx
            == spec_tally(voices).total(),
{
}

/// A voice tally held in executable form: one counter per category.
#[derive(Clone, Copy, PartialEq, Eq, Structural, Debug)]
pub struct VoiceCounts {
    pub instruments: u16,
    pub sfx: u16,
    pub kits: u16,
}

impl View for VoiceCounts {
    type V = CountsView;

    open spec fn view(&self) -> CountsView {
        CountsView {
            instruments: self.instruments as nat,
            sfx: self.sfx as nat,
            kits: self.kits as nat,
        }
    }
}

impl Default for VoiceCounts {
    /// The all-zero tally.
    fn default() -> (c: VoiceCounts)
        ensures
            c@ == CountsView::zero(),
    {
        VoiceCounts { instruments: 0, sfx: 0, kits: 0 }
    }
}

impl VoiceCounts {
    /// The counters stand within range of one another's sum: the total
    /// fits the counter width.
    pub open spec fn wf(self) -> bool {
        self@.total() <= u16::MAX
    }

    /// The total number of voices counted, over all categories.
    pub fn total(&self) -> (t: u16)
        requires
            self.wf(),
        ensures
            t == self@.total(),
    {
        self.instruments + self.sfx + self.kits
    }

    /// Combines two tallies of disjoint banks by per-category addition.
    pub fn combine(self, other: VoiceCounts) -> (c: VoiceCounts)
        requires
            self@.total() + other@.total() <= u16::MAX,
        ensures
            c@ == self@.combine(other@),
            c.wf(),
    {
        VoiceCounts {
            instruments: self.instruments + other.instruments,
            sfx: self.sfx + other.sfx,
            kits: self.kits + other.kits,
        }
    }

    /// Renders the summary line for this tally, e.g.
    /// `"Total number of voices: 136 (128 instruments, 0 sound effects, 8 kits)\n"`.
    pub fn render(&self) -> (out: String)
        requires
            self.wf(),
        ensures
            out@ == spec_total_line(self@),
    {
        let mut out = String::new();
        out.append("Total number of voices: ");
        let total = decimal(self.total());
        out.append(total.as_str());
        out.append(" (");
        let instruments = decimal(self.instruments);
        out.append(instruments.as_str());
        out.append(" instruments, ");
        let sfx = decimal(self.sfx);
        out.append(sfx.as_str());
        out.append(" sound effects, ");
        let kits = decimal(self.kits);
        out.append(kits.as_str());
        out.append(" kits)\n");
        proof {
            assert(out@ =~= spec_total_line(self@));
        }
        out
    }
}

/// The report's summary line for a tally: the total and its
/// per-category breakdown.
pub open spec fn spec_total_line(t: CountsView) -> Seq<char> {
    "Total number of voices: "@ + spec_decimal(t.total() as int) + " ("@ + spec_decimal(
        t.instruments as int,
    ) + " instruments, "@ + spec_decimal(t.sfx as int) + " sound effects, "@ + spec_decimal(
        t.kits as int,
    ) + " kits)\n"@
}

/// All catalog rows of a sequence of voices, one line per voice.
pub open spec fn spec_voice_rows(voices: Seq<Voice>) -> Seq<char>
    decreases voices.len(),
{
    if voices.len() == 0 {
        Seq::empty()
    } else {
        spec_voice_rows(voices.drop_last()) + spec_voice_row(voices.last()) + "\n"@
    }
}

impl Voices {
    /// Tallies this bank's voices per category in a single pass.
    pub fn voicecount(&self) -> (c: VoiceCounts)
        requires
            self.0@.len() <= u16::MAX,
        ensures
            c@ == spec_tally(self.0@),
            c@.total() == self.0@.len(),
            c.wf(),
    {
        proof {
            lemma_tally_total(self.0@);
        }
        let mut c: VoiceCounts = Default::default();
        for i in 0..self.0.len()
            invariant
                c@ == spec_tally(self.0@.take(i as int)),
                c@.total() == i,
                self.0@.len() <= u16::MAX,
        {
            proof {
                lemma_tally_total(self.0@.take(i as int));
                assert(self.0@.take(i as int + 1).drop_last() =~= self.0@.take(i as int));
                assert(self.0@.take(i as int + 1).last() == self.0@[i as int]);
            }
            match self.0[i].msb {
                127 => {
                    c.kits = c.kits + 1;
                },
                64 => {
                    c.sfx = c.sfx + 1;
                },
                _ => {
                    c.instruments = c.instruments + 1;
                },
            }
        }
        proof {
            assert(self.0@.take(self.0@.len() as int) =~= self.0@);
        }
        c
    }

    /// Renders every voice row of this bank, each on a line of its own,
    /// in catalog order.
    pub fn render(&self) -> (out: String)
        ensures
            out@ == spec_voice_rows(self.0@),
    {
        let mut out = String::new();
        for i in 0..self.0.len()
            invariant
                out@ == spec_voice_rows(self.0@.take(i as int)),
        {
            proof {
                assert(self.0@.take(i as int + 1).drop_last() =~= self.0@.take(i as int));
                assert(self.0@.take(i as int + 1).last() == self.0@[i as int]);
            }
            let row = self.0[i].render();
            out.append(row.as_str());
            out.append("\n");
        }
        proof {
            assert(self.0@.take(self.0@.len() as int) =~= self.0@);
        }
        out
    }
}

} // verus!

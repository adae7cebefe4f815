//! A complete casting: the present hexagram, the future hexagram derived
//! from its changing lines, and the rendered report.

use vstd::prelude::*;

use crate::hexagram::Hexagram;
use crate::hexagram::spec_changing_positions;
use crate::hexagram::spec_hexagram_display;
use crate::lexicon::IChingTranslation;
use crate::line::CoinSource;
use crate::line::spec_change_line;
use crate::text::push_decimal;
use crate::text::spec_decimal;

verus! {

/// The rows naming the changing-line positions, one row per position, in the
/// order given.
pub open spec fn spec_changing_rows(ps: Seq<u8>) -> Seq<char>
    decreases ps.len(),
{
    if ps.len() == 0 {
        Seq::empty()
    } else {
        spec_changing_rows(ps.drop_last()) + "line "@ + spec_decimal(ps.last() as int) + " - \n"@
    }
}

/// One casting: a present hexagram, the future hexagram it changes into (if
/// any line is changing), and the translation it will be read against.
#[derive(Debug)]
pub struct Divination<'tr> {
    pub present_hexagram: Hexagram,
    pub future_hexagram: Option<Hexagram>,
    pub translation: &'tr IChingTranslation,
}

impl<'tr> Divination<'tr> {
    /// The full report: the present hexagram, one row per changing line, and
    /// either the future hexagram or a note that nothing changes.
    pub open spec fn spec_display(self) -> Seq<char> {
        spec_hexagram_display(self.present_hexagram) + "\n"@ + spec_changing_rows(
            spec_changing_positions(self.present_hexagram.lines@),
        ) + match self.future_hexagram {
            Some(f) => "-- changing to -- \n"@ + spec_hexagram_display(f),
            None => "-- unchanging --\n"@,
        }
    }

    /// Cast once: draw the present hexagram from the coin source and derive
    /// the future one from its changing lines. The result is locked in on
    /// creation; nothing is ever recomputed.
    pub fn new(translation: &'tr IChingTranslation, src: &mut impl CoinSource) -> (d: Divination<
        'tr,
    >)
        ensures
            d.present_hexagram.wf(),
            d.future_hexagram is None <==> spec_changing_positions(
                d.present_hexagram.lines@,
            ).len() == 0,
            d.future_hexagram matches Some(f) ==> {
                &&& forall|i: int|
                    0 <= i < 6 ==> f.lines@[i] == spec_change_line(d.present_hexagram.lines@[i])
                &&& f.wf()
            },
            d.translation == translation,
    {
        let present_hexagram = Hexagram::generate_present(src);
        let future_hexagram = present_hexagram.change();
        Divination { present_hexagram, future_hexagram, translation }
    }

    /// Render the report: present hexagram, changing-line rows, then the
    /// future hexagram or the note that the casting is unchanging.
    pub fn to_string(&self) -> (r: String)
        ensures
            r@ == self.spec_display(),
    {
        let ghost ps = spec_changing_positions(self.present_hexagram.lines@);
        let ghost head = spec_hexagram_display(self.present_hexagram) + "\n"@;
        let mut result = self.present_hexagram.to_string();
        result.append("\n");
        let changing = self.present_hexagram.get_changing_lines();
        let mut i: usize = 0;
        proof {
            assert(ps.take(0) =~= Seq::<u8>::empty());
        }
        #[verifier::loop_isolation(false)]
        while i < changing.len()
            invariant
                i <= ps.len(),
                result@ == head + spec_changing_rows(ps.take(i as int)),
            decreases ps.len() - i,
        {
            result.append("line ");
            push_decimal(&mut result, changing[i] as u64);
            result.append(" - \n");
            proof {
                assert(ps.take(i as int + 1).drop_last() =~= ps.take(i as int));
                assert(result@ =~= head + spec_changing_rows(ps.take(i as int + 1)));
            }
            i += 1;
        }
        proof {
            assert(ps.take(ps.len() as int) =~= ps);
        }
        match &self.future_hexagram {
            Some(future) => {
                result.append("-- changing to -- \n");
                result.append(future.to_string().as_str());
            },
            None => {
                result.append("-- unchanging --\n");
            },
        }
        proof {
            assert(result@ =~= self.spec_display());
        }
        result
    }
}

} // verus!

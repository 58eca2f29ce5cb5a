//! The recognition producer: a cooperative polling loop that, once per
//! cadence tick, checks the shared liveness flag and either emits the next
//! transcript fragment, emits the single final fragment and completes, or
//! halts silently because the session was stopped.
//!
//! The simulated recognizer grows one fixed utterance per language, one
//! increment per tick; the fragment texts form a strictly growing prefix
//! chain ended by exactly one final fragment.

use vstd::prelude::*;

use crate::text::str_eq;

verus! {

/// The languages the simulated recognizer knows; any unrecognized tag falls
/// back to English.
#[derive(Clone, Copy, Debug, PartialEq, Eq, Structural)]
pub enum Lang {
    Spanish,
    French,
    English,
}

/// The language selected by a tag: `es-ES` and `fr-FR` are recognized,
/// everything else is treated as English.
pub open spec fn lang_of_spec(tag: Seq<char>) -> Lang {
    if tag == "es-ES"@ {
        Lang::Spanish
    } else if tag == "fr-FR"@ {
        Lang::French
    } else {
        Lang::English
    }
}

/// Maps a language tag to the recognizer language.
pub fn lang_of(tag: &str) -> (r: Lang)
    ensures
        r == lang_of_spec(tag@),
{
    if str_eq(tag, "es-ES") {
        Lang::Spanish
    } else if str_eq(tag, "fr-FR") {
        Lang::French
    } else {
        Lang::English
    }
}

/// The number of partial fragments each language's utterance grows through
/// before the final fragment.
pub open spec fn partial_steps(lang: Lang) -> nat {
    match lang {
        Lang::Spanish => 9,
        Lang::French => 9,
        Lang::English => 9,
    }
}

/// The text appended to the utterance at one step.
pub open spec fn increment(lang: Lang, step: nat) -> Seq<char> {
    match lang {
        Lang::Spanish => if step == 1 {
            "Hola"@
        } else if step == 2 {
            " mundo"@
        } else if step == 3 {
            ", esta"@
        } else if step == 4 {
            " es"@
        } else if step == 5 {
            " una"@
        } else if step == 6 {
            " prueba"@
        } else if step == 7 {
            " de"@
        } else if step == 8 {
            " reconocimiento"@
        } else if step == 9 {
            " de voz"@
        } else {
            Seq::empty()
        },
        Lang::French => if step == 1 {
            "Bonjour"@
        } else if step == 2 {
            " le monde"@
        } else if step == 3 {
            ", ceci"@
        } else if step == 4 {
            " est"@
        } else if step == 5 {
            " un"@
        } else if step == 6 {
            " test"@
        } else if step == 7 {
            " de"@
        } else if step == 8 {
            " reconnaissance"@
        } else if step == 9 {
            " vocale"@
        } else {
            Seq::empty()
        },
        Lang::English => if step == 1 {
            "Hello"@
        } else if step == 2 {
            " world"@
        } else if step == 3 {
            ", this"@
        } else if step == 4 {
            " is"@
        } else if step == 5 {
            " a"@
        } else if step == 6 {
            " test"@
        } else if step == 7 {
            " of"@
        } else if step == 8 {
            " speech"@
        } else if step == 9 {
            " recognition"@
        } else {
            Seq::empty()
        },
    }
}

/// The partial utterance after `step` increments.
pub open spec fn partial_text(lang: Lang, step: nat) -> Seq<char>
    decreases step,
{
    if step == 0 {
        Seq::empty()
    } else {
        partial_text(lang, (step - 1) as nat) + increment(lang, step)
    }
}

/// The text of the one final fragment: the full utterance, closed with a
/// period.
pub open spec fn final_text(lang: Lang) -> Seq<char> {
    partial_text(lang, partial_steps(lang)) + "."@
}

/// Every increment up to the final step is nonempty, so the utterance grows
/// strictly.
pub proof fn lemma_increment_nonempty(lang: Lang, step: nat)
    requires
        1 <= step <= partial_steps(lang),
    ensures
        increment(lang, step).len() > 0,
{
    reveal_strlit("Hola");
    reveal_strlit(" mundo");
    reveal_strlit(", esta");
    reveal_strlit(" es");
    reveal_strlit(" una");
    reveal_strlit(" prueba");
    reveal_strlit(" de");
    reveal_strlit(" reconocimiento");
    reveal_strlit(" de voz");
    reveal_strlit("Bonjour");
    reveal_strlit(" le monde");
    reveal_strlit(", ceci");
    reveal_strlit(" est");
    reveal_strlit(" un");
    reveal_strlit(" test");
    reveal_strlit(" reconnaissance");
    reveal_strlit(" vocale");
    reveal_strlit("Hello");
    reveal_strlit(" world");
    reveal_strlit(", this");
    reveal_strlit(" is");
    reveal_strlit(" a");
    reveal_strlit(" of");
    reveal_strlit(" speech");
    reveal_strlit(" recognition");
}

/// An earlier partial text is a strict prefix of any later partial text.
pub proof fn lemma_partials_prefix_chain(lang: Lang, i: nat, j: nat)
    requires
        i < j <= partial_steps(lang),
    ensures
        partial_text(lang, i).len() < partial_text(lang, j).len(),
        partial_text(lang, i).is_prefix_of(partial_text(lang, j)),
    decreases j,
{
    lemma_increment_nonempty(lang, j);
    if i + 1 < j {
        lemma_partials_prefix_chain(lang, i, (j - 1) as nat);
    }
}

/// Every partial text is a strict prefix of the final text.
pub proof fn lemma_partial_prefix_of_final(lang: Lang, i: nat)
    requires
        i <= partial_steps(lang),
    ensures
        partial_text(lang, i).len() < final_text(lang).len(),
        partial_text(lang, i).is_prefix_of(final_text(lang)),
{
    reveal_strlit(".");
    if i < partial_steps(lang) {
        lemma_partials_prefix_chain(lang, i, partial_steps(lang));
    }
}

fn increment_str(lang: &Lang, step: u64) -> (r: &'static str)
    requires
        1 <= step <= partial_steps(*lang),
    ensures
        r@ == increment(*lang, step as nat),
{
    match lang {
        Lang::Spanish => match step {
            1 => "Hola",
            2 => " mundo",
            3 => ", esta",
            4 => " es",
            5 => " una",
            6 => " prueba",
            7 => " de",
            8 => " reconocimiento",
            _ => " de voz",
        },
        Lang::French => match step {
            1 => "Bonjour",
            2 => " le monde",
            3 => ", ceci",
            4 => " est",
            5 => " un",
            6 => " test",
            7 => " de",
            8 => " reconnaissance",
            _ => " vocale",
        },
        Lang::English => match step {
            1 => "Hello",
            2 => " world",
            3 => ", this",
            4 => " is",
            5 => " a",
            6 => " test",
            7 => " of",
            8 => " speech",
            _ => " recognition",
        },
    }
}

/// Builds the partial utterance for one step by replaying the increments.
pub fn fragment_text(lang: &Lang, step: u64) -> (r: String)
    requires
        1 <= step <= partial_steps(*lang),
    ensures
        r@ == partial_text(*lang, step as nat),
{
    let mut s = String::new();
    let mut i: u64 = 0;
    while i < step
        invariant
            i <= step,
            step <= partial_steps(*lang),
            s@ == partial_text(*lang, i as nat),
        decreases step - i,
    {
        i = i + 1;
        s.append(increment_str(lang, i));
    }
    s
}

/// Builds the final fragment's text: the full utterance, closed with a
/// period.
pub fn final_fragment_text(lang: &Lang) -> (r: String)
    ensures
        r@ == final_text(*lang),
{
    let steps: u64 = match lang {
        Lang::Spanish => 9,
        Lang::French => 9,
        Lang::English => 9,
    };
    fragment_text(lang, steps).concat(".")
}

/// One increment of recognized speech, as published to the event sink.
#[derive(Clone, Debug, PartialEq, Eq)]
pub struct TranscriptFragment {
    pub text: String,
    pub is_final: bool,
}

/// A terminal, session-ending failure of the recognizer, as published to the
/// event sink.
#[derive(Clone, Debug, PartialEq, Eq)]
pub struct TranscriptionFailure {
    pub message: String,
}

/// The fragments a producer has emitted after `n` live ticks: one partial per
/// step, then the single final fragment; nothing afterwards.
pub open spec fn emissions(lang: Lang, n: nat) -> Seq<(Seq<char>, bool)>
    decreases n,
{
    if n == 0 {
        Seq::empty()
    } else if n <= partial_steps(lang) {
        emissions(lang, (n - 1) as nat).push((partial_text(lang, n), false))
    } else if n == partial_steps(lang) + 1 {
        emissions(lang, (n - 1) as nat).push((final_text(lang), true))
    } else {
        emissions(lang, (n - 1) as nat)
    }
}

/// What a whole producer run emits: fragments with strictly growing prefix
/// texts, at most one final fragment, and the final fragment — when the run
/// gets that far — last, with nothing after it.
pub proof fn lemma_emissions_shape(lang: Lang, n: nat)
    ensures
        emissions(lang, n).len() == if n <= partial_steps(lang) + 1 {
            n
        } else {
            partial_steps(lang) + 1
        },
        forall|i: int|
            0 <= i < emissions(lang, n).len() ==> ((#[trigger] emissions(lang, n)[i]).1 <==> i
                == partial_steps(lang)),
        forall|i: int|
            0 <= i < emissions(lang, n).len() && i < partial_steps(lang) ==> (
            #[trigger] emissions(lang, n)[i]).0 == partial_text(lang, (i + 1) as nat),
        forall|i: int|
            0 <= i < emissions(lang, n).len() && i == partial_steps(lang) ==> (
            #[trigger] emissions(lang, n)[i]).0 == final_text(lang),
        forall|i: int, j: int|
            0 <= i < j < emissions(lang, n).len() ==> (#[trigger] emissions(lang, n)[i]).0.len()
                < (#[trigger] emissions(lang, n)[j]).0.len() && emissions(lang, n)[i].0.is_prefix_of(
                emissions(lang, n)[j].0,
            ),
    decreases n,
{
    if n > 0 {
        lemma_emissions_shape(lang, (n - 1) as nat);
        let prev = emissions(lang, (n - 1) as nat);
        assert forall|i: int| 0 <= i < emissions(lang, n).len() implies ((
        #[trigger] emissions(lang, n)[i]).1 <==> i == partial_steps(lang)) by {
            if i < prev.len() {
                assert(emissions(lang, n)[i] == prev[i]);
            }
        }
        assert forall|i: int, j: int| 0 <= i < j < emissions(lang, n).len() implies (
        #[trigger] emissions(lang, n)[i]).0.len() < (#[trigger] emissions(lang, n)[j]).0.len()
            && emissions(lang, n)[i].0.is_prefix_of(emissions(lang, n)[j].0) by {
            if j < partial_steps(lang) {
                lemma_partials_prefix_chain(lang, (i + 1) as nat, (j + 1) as nat);
            } else if j == partial_steps(lang) {
                lemma_partial_prefix_of_final(lang, (i + 1) as nat);
            }
        }
    }
}

/// The shape of any producer's own emitted log: fragment texts strictly grow
/// and each is a prefix of every later one; a fragment is final exactly when
/// it is the one emitted after the last partial step, so at most one final
/// fragment exists and nothing follows it.
pub proof fn lemma_producer_log_shape(p: Producer)
    requires
        p.inv(),
    ensures
        forall|i: int|
            0 <= i < p.emitted().len() ==> ((#[trigger] p.emitted()[i]).1 <==> i == partial_steps(
                p.lang(),
            )),
        forall|i: int, j: int|
            0 <= i < j < p.emitted().len() ==> (#[trigger] p.emitted()[i]).0.len() < (
            #[trigger] p.emitted()[j]).0.len() && p.emitted()[i].0.is_prefix_of(p.emitted()[j].0),
{
    lemma_emissions_shape(p.lang(), p.counter());
}

/// The producer's loop state: the language it was launched with, how many
/// live ticks it has taken, and whether it has wound down (either by emitting
/// the final fragment or by observing a cleared liveness flag).
pub struct Producer {
    lang: Lang,
    counter: u64,
    finished: bool,
    emitted: Ghost<Seq<(Seq<char>, bool)>>,
}

impl Producer {
    /// The language the producer recognizes.
    pub closed spec fn lang(self) -> Lang {
        self.lang
    }

    /// The number of live ticks taken so far.
    pub closed spec fn counter(self) -> nat {
        self.counter as nat
    }

    /// Whether the loop has wound down.
    pub closed spec fn finished(self) -> bool {
        self.finished
    }

    /// The fragments emitted so far, as (text, is_final) pairs.
    pub closed spec fn emitted(self) -> Seq<(Seq<char>, bool)> {
        self.emitted@
    }

    /// The emitted fragments are exactly the emissions of the ticks taken; a
    /// producer that has run past every partial step has wound down.
    pub closed spec fn inv(self) -> bool {
        &&& self.emitted@ == emissions(self.lang, self.counter as nat)
        &&& self.counter <= partial_steps(self.lang) + 1
        &&& self.counter > partial_steps(self.lang) ==> self.finished
    }

    /// A fresh producer for one session, launched with a language tag.
    pub fn new(language_tag: &str) -> (r: Producer)
        ensures
            r.inv(),
            r.lang() == lang_of_spec(language_tag@),
            r.counter() == 0,
            !r.finished(),
            r.emitted() == Seq::<(Seq<char>, bool)>::empty(),
    {
        Producer { lang: lang_of(language_tag), counter: 0, finished: false, emitted: Ghost(Seq::empty()) }
    }

    /// One cadence tick of the polling loop. `live` is the session flag read
    /// under the lock just before the tick. A cleared flag halts the loop at
    /// once, silently: no further fragment, in particular no final one. A
    /// live tick emits the next partial fragment, or — once every partial
    /// step is taken — the single final fragment, after which the loop is
    /// finished and emits nothing ever again.
    pub fn tick(&mut self, live: bool) -> (r: Option<TranscriptFragment>)
        requires
            old(self).inv(),
        ensures
            final(self).inv(),
            final(self).lang() == old(self).lang(),
            old(self).finished() ==> {
                &&& r is None
                &&& final(self).finished()
                &&& final(self).emitted() == old(self).emitted()
            },
            !old(self).finished() && !live ==> {
                &&& r is None
                &&& final(self).finished()
                &&& final(self).emitted() == old(self).emitted()
            },
            !old(self).finished() && live ==> {
                &&& final(self).counter() == old(self).counter() + 1
                &&& r matches Some(f) && final(self).emitted() == old(self).emitted().push(
                    (f.text@, f.is_final),
                )
            },
            !old(self).finished() && live && old(self).counter() < partial_steps(old(self).lang())
                ==> {
                &&& r matches Some(f) && f.text@ == partial_text(
                    old(self).lang(),
                    old(self).counter() + 1,
                ) && !f.is_final
                &&& !final(self).finished()
            },
            !old(self).finished() && live && old(self).counter() == partial_steps(
                old(self).lang(),
            ) ==> {
                &&& r matches Some(f) && f.text@ == final_text(old(self).lang()) && f.is_final
                &&& final(self).finished()
            },
    {
        if self.finished {
            return None;
        }
        if !live {
            self.finished = true;
            return None;
        }
        self.counter = self.counter + 1;
        let steps: u64 = match self.lang {
            Lang::Spanish => 9,
            Lang::French => 9,
            Lang::English => 9,
        };
        if self.counter <= steps {
            let f = TranscriptFragment { text: fragment_text(&self.lang, self.counter), is_final: false };
            proof {
                self.emitted@ = self.emitted@.push((f.text@, f.is_final));
            }
            Some(f)
        } else {
            self.finished = true;
            let f = TranscriptFragment { text: final_fragment_text(&self.lang), is_final: true };
            proof {
                self.emitted@ = self.emitted@.push((f.text@, f.is_final));
            }
            Some(f)
        }
    }
}

} // verus!

//! Terminal command lines: engine selection (`eng N`), routing commands
//! (`on`, `off`, `ch`, `vol`), `show`, `random`, and parameter commands, and
//! the host-side command state (current engine and routing copy).

use vstd::prelude::*;
use crate::args::{
    msg_too_many, parse_engine_number, parse_f32_arg, parse_listen_channel, res_view,
    spec_engine_number, spec_f32_arg, spec_listen_channel, text, is_glued_eng_token,
    is_glued_lfo_token, is_glued,
};
use crate::events::{ControlEvent, InstanceEvent, MixerEvent, ENGINE_COUNT};
use crate::mixer::{spec_route, Delivery, Router, SlotRouting, initial_routing};
use crate::params_cmd::{
    lemma_param_numbers_ok, numbers_ok, parse_param_words, spec_param_words, words_view,
};
use crate::text::{
    is_float_literal, is_unsigned_literal, lower_seq, split_words, to_lower, tokens, unsigned_value,
    word_is,
};

verus! {

/// Note velocity used for laptop-keyboard notes.
pub const KEYBOARD_VELOCITY: u8 = 100;

/// What the host prints after applying a command.
#[derive(Debug, Clone, Copy, PartialEq, Eq, Structural)]
pub enum PrintAfter {
    Nothing,
    /// Current engine's on/off, channel, and volume.
    Status,
    /// Replayable patch of an engine (1-based).
    Show { instance: usize },
    /// Draw a random patch for the engine (1-based), load it with the
    /// events of [`crate::patch::patch_events`], and print it.
    RandomPatch { instance: usize },
}

/// One parsed command line.
#[derive(Debug)]
pub struct ParsedCommand {
    /// New current engine (1-based), for a bare `eng N`.
    pub switch_current: Option<usize>,
    /// Events to send, numeric arguments as text.
    pub events: Vec<MixerEvent<String>>,
    pub print: PrintAfter,
}

/// A parsed command as contracts see it.
pub struct ParsedView {
    pub switch_current: Option<usize>,
    pub events: Seq<MixerEvent<Seq<char>>>,
    pub print: PrintAfter,
}

impl DeepView for ParsedCommand {
    type V = ParsedView;

    open spec fn deep_view(&self) -> ParsedView {
        ParsedView {
            switch_current: self.switch_current,
            events: self.events.deep_view(),
            print: self.print,
        }
    }
}

pub open spec fn parsed(
    switch_current: Option<usize>,
    events: Seq<MixerEvent<Seq<char>>>,
    print: PrintAfter,
) -> ParsedView {
    ParsedView { switch_current, events, print }
}

pub open spec fn spec_to_instance<N>(instance: usize, event: InstanceEvent<N>) -> MixerEvent<N> {
    MixerEvent::ToInstance { instance: instance as u8, event }
}

/// Addresses an instance event to a 1-based instance.
pub fn to_instance<N>(instance: usize, event: InstanceEvent<N>) -> (r: MixerEvent<N>)
    ensures
        r == spec_to_instance(instance, event),
{
    MixerEvent::ToInstance { instance: instance as u8, event }
}

pub open spec fn msg_eng_space() -> Seq<char> {
    "use 'eng N' with a space (for example eng 2)"@
}

pub open spec fn msg_lfo_space() -> Seq<char> {
    "use 'lfo N' with a space (for example lfo 1)"@
}

pub open spec fn one_event(instance: usize, event: InstanceEvent<Seq<char>>) -> Result<
    ParsedView,
    Seq<char>,
> {
    Ok(parsed(None, seq![spec_to_instance(instance, event)], PrintAfter::Nothing))
}

/// A command addressed to one engine, given as words.
pub open spec fn spec_targeted(words: Seq<Seq<char>>, instance: usize) -> Result<
    ParsedView,
    Seq<char>,
> {
    if words.len() == 0 {
        Err("expected a command"@)
    } else {
        let cmd = lower_seq(words[0]);
        let rest = words.skip(1);
        if is_glued(cmd, "eng"@) {
            Err(msg_eng_space())
        } else if is_glued(cmd, "lfo"@) {
            Err(msg_lfo_space())
        } else if cmd == "on"@ {
            if rest.len() > 0 {
                Err(msg_too_many())
            } else {
                one_event(instance, InstanceEvent::SetEnabled { on: true })
            }
        } else if cmd == "off"@ {
            if rest.len() > 0 {
                Err(msg_too_many())
            } else {
                one_event(instance, InstanceEvent::SetEnabled { on: false })
            }
        } else if cmd == "ch"@ {
            if rest.len() == 0 {
                Err("ch needs a channel 1 through 16"@)
            } else if rest.len() > 1 {
                Err(msg_too_many())
            } else {
                match spec_listen_channel(rest[0]) {
                    Ok(channel) => one_event(instance, InstanceEvent::SetListenChannel { channel }),
                    Err(e) => Err(e),
                }
            }
        } else if cmd == "vol"@ {
            match spec_f32_arg(
                if rest.len() > 0 {
                    Some(rest[0])
                } else {
                    None
                },
                "vol"@,
            ) {
                Err(e) => Err(e),
                Ok(amount) => if rest.len() > 1 {
                    Err(msg_too_many())
                } else {
                    one_event(instance, InstanceEvent::SetVolume { amount })
                },
            }
        } else if cmd == "show"@ {
            if rest.len() > 0 {
                Err(msg_too_many())
            } else {
                Ok(parsed(None, seq![], PrintAfter::Show { instance }))
            }
        } else if cmd == "random"@ {
            if rest.len() > 0 {
                Err(msg_too_many())
            } else {
                Ok(parsed(None, seq![], PrintAfter::RandomPatch { instance }))
            }
        } else {
            match spec_param_words(cmd, rest) {
                Err(e) => Err(e),
                Ok(None) => Err("expected a command"@),
                Ok(Some(event)) => one_event(instance, InstanceEvent::Engine(event)),
            }
        }
    }
}

fn one_parsed(instance: usize, event: InstanceEvent<String>) -> (r: ParsedCommand)
    ensures
        r.deep_view() == parsed(
            None,
            seq![spec_to_instance(instance, event).deep_view()],
            PrintAfter::Nothing,
        ),
{
    let mut events = Vec::new();
    events.push(to_instance(instance, event));
    let r = ParsedCommand { switch_current: None, events, print: PrintAfter::Nothing };
    assert(r.deep_view().events =~= seq![spec_to_instance(instance, event).deep_view()]);
    r
}

fn no_events(print: PrintAfter) -> (r: ParsedCommand)
    ensures
        r.deep_view() == parsed(None, seq![], print),
{
    let r = ParsedCommand { switch_current: None, events: Vec::new(), print };
    assert(r.deep_view().events =~= Seq::<MixerEvent<Seq<char>>>::empty());
    r
}

/// A command for one engine, given as words.
pub fn parse_targeted_words(words: &[String], instance: usize) -> (r: Result<ParsedCommand, String>)
    ensures
        res_view(r) == spec_targeted(words_view(words@), instance),
{
    let ghost w = words_view(words@);
    if words.len() == 0 {
        return Err(text("expected a command"));
    }
    assert(w[0] == words@[0]@);
    let low = to_lower(words[0].as_str());
    let cmd = low.as_str();
    let rest = &words[1..words.len()];
    assert(words_view(rest@) =~= w.skip(1));
    let ghost r = w.skip(1);
    if is_glued_eng_token(cmd) {
        return Err(text("use 'eng N' with a space (for example eng 2)"));
    }
    if is_glued_lfo_token(cmd) {
        return Err(text("use 'lfo N' with a space (for example lfo 1)"));
    }
    if word_is(cmd, "on") {
        if rest.len() > 0 {
            return Err(text("too many arguments"));
        }
        Ok(one_parsed(instance, InstanceEvent::SetEnabled { on: true }))
    } else if word_is(cmd, "off") {
        if rest.len() > 0 {
            return Err(text("too many arguments"));
        }
        Ok(one_parsed(instance, InstanceEvent::SetEnabled { on: false }))
    } else if word_is(cmd, "ch") {
        if rest.len() == 0 {
            return Err(text("ch needs a channel 1 through 16"));
        }
        if rest.len() > 1 {
            return Err(text("too many arguments"));
        }
        assert(r[0] == rest@[0]@);
        let channel = parse_listen_channel(&rest[0])?;
        Ok(one_parsed(instance, InstanceEvent::SetListenChannel { channel }))
    } else if word_is(cmd, "vol") {
        let arg = if rest.len() > 0 {
            assert(r[0] == rest@[0]@);
            Some(&rest[0])
        } else {
            None
        };
        let amount = parse_f32_arg(arg, "vol")?;
        if rest.len() > 1 {
            return Err(text("too many arguments"));
        }
        Ok(one_parsed(instance, InstanceEvent::SetVolume { amount }))
    } else if word_is(cmd, "show") {
        if rest.len() > 0 {
            return Err(text("too many arguments"));
        }
        Ok(no_events(PrintAfter::Show { instance }))
    } else if word_is(cmd, "random") {
        if rest.len() > 0 {
            return Err(text("too many arguments"));
        }
        Ok(no_events(PrintAfter::RandomPatch { instance }))
    } else {
        match parse_param_words(cmd, rest)? {
            None => Err(text("expected a command")),
            Some(event) => Ok(one_parsed(instance, InstanceEvent::Engine(event))),
        }
    }
}

/// A command for one engine (1-based `instance`): routing, `show`,
/// `random`, or a parameter command.
pub fn parse_targeted_command(line: &str, instance: usize) -> (r: Result<ParsedCommand, String>)
    ensures
        res_view(r) == spec_targeted(tokens(line@), instance),
{
    let words = split_words(line);
    assert(words_view(words@) =~= tokens(line@));
    parse_targeted_words(words.as_slice(), instance)
}

/// A full command line, given the current engine (1-based).
pub open spec fn spec_line_commands(line: Seq<char>, current_instance: usize) -> Result<
    Option<ParsedView>,
    Seq<char>,
> {
    if line.len() == 0 {
        Ok(None)
    } else {
        let words = tokens(line);
        let first = lower_seq(words[0]);
        if is_glued(first, "eng"@) {
            Err(msg_eng_space())
        } else if is_glued(first, "lfo"@) {
            Err(msg_lfo_space())
        } else if first == "eng"@ {
            if words.len() == 1 {
                Ok(Some(parsed(None, seq![], PrintAfter::Status)))
            } else {
                match spec_engine_number(words[1]) {
                    Err(e) => Err(e),
                    Ok(n) => if words.len() == 2 {
                        Ok(Some(parsed(Some(n), seq![], PrintAfter::Status)))
                    } else {
                        match spec_targeted(words.skip(2), n) {
                            Err(e) => Err(e),
                            Ok(p) => Ok(Some(p)),
                        }
                    },
                }
            }
        } else {
            match spec_targeted(words, current_instance) {
                Err(e) => Err(e),
                Ok(p) => Ok(Some(p)),
            }
        }
    }
}

/// Parses one terminal line. `eng` alone asks for status; `eng N` switches
/// the current engine; `eng N <command>` applies one command to engine N
/// without switching. Other lines go to the current engine.
///
/// A line that is not empty must hold a word (hosts trim lines first).
pub fn parse_line_commands(line: &str, current_instance: usize) -> (r: Result<
    Option<ParsedCommand>,
    String,
>)
    requires
        line@.len() == 0 || tokens(line@).len() > 0,
    ensures
        res_view(r) == spec_line_commands(line@, current_instance),
{
    if line.unicode_len() == 0 {
        return Ok(None);
    }
    let words = split_words(line);
    let ghost w = words.deep_view();
    assert(words_view(words@) =~= w);
    assert(w[0] == words@[0]@);
    let low = to_lower(words[0].as_str());
    let first = low.as_str();
    if is_glued_eng_token(first) {
        return Err(text("use 'eng N' with a space (for example eng 2)"));
    }
    if is_glued_lfo_token(first) {
        return Err(text("use 'lfo N' with a space (for example lfo 1)"));
    }
    if word_is(first, "eng") {
        if words.len() == 1 {
            let p = no_events(PrintAfter::Status);
            return Ok(Some(p));
        }
        assert(w[1] == words@[1]@);
        let instance = parse_engine_number(&words[1])?;
        if words.len() == 2 {
            let r = ParsedCommand {
                switch_current: Some(instance),
                events: Vec::new(),
                print: PrintAfter::Status,
            };
            assert(r.deep_view().events =~= Seq::<MixerEvent<Seq<char>>>::empty());
            return Ok(Some(r));
        }
        let rest = &words.as_slice()[2..words.len()];
        assert(words_view(rest@) =~= w.skip(2));
        let p = parse_targeted_words(rest, instance)?;
        return Ok(Some(p));
    }
    let p = parse_targeted_words(words.as_slice(), current_instance)?;
    Ok(Some(p))
}

/// Host-side command state: the current engine and a copy of the mixer
/// routing, kept in step with the events the host sends.
pub struct CommandState {
    current_instance: usize,
    routing: Router,
}

impl CommandState {
    pub closed spec fn current(&self) -> usize {
        self.current_instance
    }

    pub closed spec fn routing(&self) -> Seq<SlotRouting> {
        self.routing@
    }

    pub closed spec fn wf(&self) -> bool {
        &&& 1 <= self.current_instance <= ENGINE_COUNT
        &&& self.routing.wf()
    }

    /// Engine 1 is current; routing as the mixer starts.
    pub fn new() -> (r: CommandState)
        ensures
            r.wf(),
            r.current() == 1,
            r.routing() == initial_routing(),
    {
        CommandState { current_instance: 1, routing: Router::new() }
    }

    /// The current engine, 1-based.
    pub fn current_engine_number(&self) -> (r: usize)
        requires
            self.wf(),
        ensures
            r == self.current(),
            1 <= r <= ENGINE_COUNT,
    {
        self.current_instance
    }

    /// Whether the current engine is on.
    pub fn current_enabled(&self) -> (r: bool)
        requires
            self.wf(),
        ensures
            r == self.routing()[self.current() - 1].enabled,
    {
        self.routing.slot(self.current_instance - 1).enabled
    }

    /// Routing of one engine (0-based).
    pub fn slot(&self, index: usize) -> (r: SlotRouting)
        requires
            self.wf(),
            index < ENGINE_COUNT,
        ensures
            r == self.routing()[index as int],
    {
        self.routing.slot(index)
    }

    /// A laptop-keyboard note for the current engine.
    pub fn keyboard_note_event<N>(&self, note: u8, on: bool) -> (r: MixerEvent<N>)
        requires
            self.wf(),
        ensures
            r == spec_to_instance(
                self.current(),
                InstanceEvent::<N>::Engine(
                    if on {
                        ControlEvent::NoteOn { note, velocity: KEYBOARD_VELOCITY }
                    } else {
                        ControlEvent::NoteOff { note }
                    },
                ),
            ),
    {
        let control = if on {
            ControlEvent::NoteOn { note, velocity: KEYBOARD_VELOCITY }
        } else {
            ControlEvent::NoteOff { note }
        };
        to_instance(self.current_instance, InstanceEvent::Engine(control))
    }

    /// Applies a parsed command: switches the current engine when asked,
    /// then passes each event through the routing copy. Returns, in order,
    /// what each event does to the engine copies the host keeps.
    pub fn apply_parsed(&mut self, command: ParsedCommand) -> (r: Vec<Delivery<String>>)
        requires
            old(self).wf(),
            command.switch_current matches Some(n) ==> 1 <= n <= ENGINE_COUNT,
        ensures
            final(self).wf(),
            final(self).current() == (match command.switch_current {
                Some(n) => n,
                None => old(self).current(),
            }),
            final(self).routing() == routing_after(old(self).routing(), command.events@),
            r@ == deliveries_after(old(self).routing(), command.events@),
    {
        if let Some(instance) = command.switch_current {
            self.current_instance = instance;
        }
        let mut out: Vec<Delivery<String>> = Vec::new();
        let mut events = command.events;
        let ghost all = events@;
        let ghost start = self.routing@;
        let ghost cur = self.current_instance;
        let mut k: usize = 0;
        let n = events.len();
        assert(all.skip(0) =~= all);
        while k < n
            invariant
                n == all.len(),
                k <= n,
                events@ == all.skip(k as int),
                self.routing.wf(),
                1 <= self.current_instance <= ENGINE_COUNT,
                self.current_instance == cur,
                routing_after(start, all) == routing_after(self.routing@, all.skip(k as int)),
                deliveries_after(start, all) == out@ + deliveries_after(
                    self.routing@,
                    all.skip(k as int),
                ),
            decreases n - k,
        {
            let ghost before = self.routing@;
            let ghost tail = all.skip(k as int);
            let ev = events.remove(0);
            assert(tail[0] == ev);
            assert(tail.drop_first() =~= all.skip(k + 1));
            assert(events@ =~= all.skip(k + 1));
            let mut d = self.routing.route(ev);
            proof {
                assert(deliveries_after(before, tail) == spec_route(before, ev).1
                    + deliveries_after(spec_route(before, ev).0, tail.drop_first()));
                assert(out@ + d@ + deliveries_after(self.routing@, all.skip(k + 1)) =~= out@ + (d@
                    + deliveries_after(self.routing@, all.skip(k + 1))));
            }
            out.append(&mut d);
            k = k + 1;
        }
        assert(all.skip(n as int) =~= Seq::<MixerEvent<String>>::empty());
        assert(out@ =~= out@ + Seq::<Delivery<String>>::empty());
        out
    }
}

/// Routing after a sequence of events, applied one by one.
pub open spec fn routing_after<N>(slots: Seq<SlotRouting>, events: Seq<MixerEvent<N>>) -> Seq<
    SlotRouting,
>
    decreases events.len(),
{
    if events.len() == 0 {
        slots
    } else {
        routing_after(spec_route(slots, events[0]).0, events.drop_first())
    }
}

/// All deliveries of a sequence of events, applied one by one.
pub open spec fn deliveries_after<N>(slots: Seq<SlotRouting>, events: Seq<MixerEvent<N>>) -> Seq<
    Delivery<N>,
>
    decreases events.len(),
{
    if events.len() == 0 {
        seq![]
    } else {
        spec_route(slots, events[0]).1 + deliveries_after(
            spec_route(slots, events[0]).0,
            events.drop_first(),
        )
    }
}

/// Whether every event of a parsed command is addressed to `instance`, and
/// a `show` or `random` names it too.
pub open spec fn targets_only(p: ParsedView, instance: usize) -> bool {
    &&& forall|i: int|
        0 <= i < p.events.len() ==> (#[trigger] p.events[i] matches MixerEvent::ToInstance {
            instance: k,
            ..
        } && k == instance as u8)
    &&& (p.print matches PrintAfter::Show { instance: k } ==> k == instance)
    &&& (p.print matches PrintAfter::RandomPatch { instance: k } ==> k == instance)
}

/// A command for one engine never switches the current engine, sends at
/// most one event, and addresses only that engine; `show` and `random`
/// send nothing themselves, so they leave on/off state and channels alone.
pub proof fn lemma_targeted_stays_on_its_engine(words: Seq<Seq<char>>, instance: usize)
    ensures
        spec_targeted(words, instance) matches Ok(p) ==> {
            &&& p.switch_current is None
            &&& p.events.len() <= 1
            &&& targets_only(p, instance)
            &&& (p.print is Show || p.print is RandomPatch) ==> p.events.len() == 0
        },
{
}

/// `eng N <command>` is one-shot: it applies the command to engine N and
/// leaves the current engine as it was. Only a bare `eng N` switches, and
/// commands without the prefix go to the current engine.
pub proof fn lemma_eng_prefix_is_one_shot(line: Seq<char>, current_instance: usize)
    requires
        line.len() > 0,
        tokens(line).len() > 0,
    ensures
        spec_line_commands(line, current_instance) matches Ok(Some(p)) ==> {
            let words = tokens(line);
            &&& p.switch_current is Some ==> words.len() == 2 && lower_seq(words[0]) == "eng"@
                && spec_engine_number(words[1]) == Ok::<usize, Seq<char>>(p.switch_current->0)
            &&& (words.len() > 2 && lower_seq(words[0]) == "eng"@) ==> (p.switch_current is None
                && (spec_engine_number(words[1]) matches Ok(n) && targets_only(p, n)))
            &&& lower_seq(words[0]) != "eng"@ ==> p.switch_current is None && targets_only(
                p,
                current_instance,
            )
        },
{
    let words = tokens(line);
    if lower_seq(words[0]) == "eng"@ && words.len() > 2 {
        if let Ok(n) = spec_engine_number(words[1]) {
            lemma_targeted_stays_on_its_engine(words.skip(2), n);
        }
    } else {
        lemma_targeted_stays_on_its_engine(words, current_instance);
    }
}

/// Whether every number in a mixer event is valid `f32` text.
pub open spec fn event_numbers_ok(e: MixerEvent<Seq<char>>) -> bool {
    match e {
        MixerEvent::ToInstance { event, .. } => match event {
            InstanceEvent::Engine(c) => numbers_ok(c),
            InstanceEvent::SetVolume { amount } => is_float_literal(amount),
            _ => true,
        },
        _ => true,
    }
}

proof fn lemma_targeted_numbers_ok(words: Seq<Seq<char>>, instance: usize)
    ensures
        spec_targeted(words, instance) matches Ok(p) ==> forall|i: int|
            0 <= i < p.events.len() ==> event_numbers_ok(#[trigger] p.events[i]),
{
    if words.len() > 0 {
        lemma_param_numbers_ok(lower_seq(words[0]), words.skip(1));
    }
}

/// Every command line that parses carries only numbers a host can read as
/// `f32`: the text of each is valid `f32` syntax.
pub proof fn lemma_line_numbers_ok(line: Seq<char>, current_instance: usize)
    requires
        line.len() > 0,
        tokens(line).len() > 0,
    ensures
        spec_line_commands(line, current_instance) matches Ok(Some(p)) ==> forall|i: int|
            0 <= i < p.events.len() ==> event_numbers_ok(#[trigger] p.events[i]),
{
    let words = tokens(line);
    if lower_seq(words[0]) == "eng"@ && words.len() > 2 {
        if let Ok(n) = spec_engine_number(words[1]) {
            lemma_targeted_numbers_ok(words.skip(2), n);
        }
    } else {
        lemma_targeted_numbers_ok(words, current_instance);
    }
}

/// One event for the engine addressed, and nothing printed.
pub open spec fn sends(instance: usize, event: InstanceEvent<Seq<char>>) -> Result<
    ParsedView,
    Seq<char>,
> {
    Ok(
        ParsedView {
            switch_current: None,
            events: seq![MixerEvent::ToInstance { instance: instance as u8, event }],
            print: PrintAfter::Nothing,
        },
    )
}

/// The engine commands, in any case: `on` and `off` switch the addressed
/// engine on and off, `ch <n>` sets its listen channel to n (1 through 16),
/// `vol <v>` sets its volume to v, and `show` and `random` print its patch
/// or ask for a random one; none switches the current engine.
#[verifier::rlimit(40)]
pub proof fn lemma_engine_words(w: Seq<char>, arg: Seq<char>, instance: usize)
    ensures
        lower_seq(w) == "on"@ ==> spec_targeted(seq![w], instance) == sends(
            instance,
            InstanceEvent::SetEnabled { on: true },
        ),
        lower_seq(w) == "off"@ ==> spec_targeted(seq![w], instance) == sends(
            instance,
            InstanceEvent::SetEnabled { on: false },
        ),
        lower_seq(w) == "ch"@ && is_unsigned_literal(arg) && 1 <= unsigned_value(arg) <= 16
            ==> spec_targeted(seq![w, arg], instance) == sends(
            instance,
            InstanceEvent::SetListenChannel { channel: unsigned_value(arg) as u8 },
        ),
        lower_seq(w) == "vol"@ && is_float_literal(arg) ==> spec_targeted(seq![w, arg], instance)
            == sends(instance, InstanceEvent::SetVolume { amount: arg }),
        lower_seq(w) == "show"@ ==> spec_targeted(seq![w], instance) == Ok::<ParsedView, Seq<char>>(
            ParsedView { switch_current: None, events: seq![], print: PrintAfter::Show { instance } },
        ),
        lower_seq(w) == "random"@ ==> spec_targeted(seq![w], instance) == Ok::<
            ParsedView,
            Seq<char>,
        >(
            ParsedView {
                switch_current: None,
                events: seq![],
                print: PrintAfter::RandomPatch { instance },
            },
        ),
{
    reveal_strlit("on");
    reveal_strlit("off");
    reveal_strlit("ch");
    reveal_strlit("vol");
    reveal_strlit("show");
    reveal_strlit("random");
    reveal_strlit("eng");
    reveal_strlit("lfo");
    assert("on"@[0] != "ch"@[0]);
    assert("off"@[0] != "vol"@[0]);
    assert("show"@[0] != "eng"@[0] && "show"@[0] != "lfo"@[0]);
    assert("random"@[0] != "eng"@[0] && "random"@[0] != "lfo"@[0]);
    if lower_seq(w) == "show"@ {
        assert(lower_seq(w).take(3)[0] != "eng"@[0]);
        assert(lower_seq(w).take(3)[0] != "lfo"@[0]);
    }
    if lower_seq(w) == "random"@ {
        assert(lower_seq(w).take(3)[0] != "eng"@[0]);
        assert(lower_seq(w).take(3)[0] != "lfo"@[0]);
    }
    assert(seq![w, arg].skip(1) =~= seq![arg]);
    assert(seq![w].skip(1) =~= Seq::<Seq<char>>::empty());
}

} // verus!

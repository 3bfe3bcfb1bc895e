//! The output (sink) switches of the mixer, fed by messages from the audio
//! server and kept to the outputs that the filter lets through.

use vstd::prelude::*;

use crate::filter::{shown, should_show_with_fields, FilterConfig, FilterSpec};

verus! {

/// An audio output: a sink and one of its ports.
#[derive(Debug, Clone)]
pub struct Output {
    pub name: String,
    pub port: String,
    pub master: bool,
}

/// The mathematical content of an [`Output`].
pub struct OutputSpec {
    pub name: Seq<char>,
    pub port: Seq<char>,
    pub master: bool,
}

impl View for Output {
    type V = OutputSpec;

    open spec fn view(&self) -> OutputSpec {
        OutputSpec { name: self.name@, port: self.port@, master: self.master }
    }
}

/// A message about outputs from the audio server.
#[derive(Debug, Clone)]
pub enum MessageOutput {
    /// An output that appeared.
    New(Output),
    /// The output that is now the default (master) one.
    Master(Output),
}

/// The output switches: the outputs offered, in arrival order, and the one
/// marked active.
pub struct Switches {
    outputs: Vec<Output>,
    active: Option<Output>,
}

/// The mathematical content of [`Switches`].
pub struct SwitchesSpec {
    pub outputs: Seq<OutputSpec>,
    pub active: Option<OutputSpec>,
}

/// The view of an optional output.
pub open spec fn opt_output(o: Option<Output>) -> Option<OutputSpec> {
    match o {
        Some(out) => Some(out@),
        None => None,
    }
}

impl View for Switches {
    type V = SwitchesSpec;

    closed spec fn view(&self) -> SwitchesSpec {
        SwitchesSpec {
            outputs: self.outputs@.map_values(|o: Output| o@),
            active: opt_output(self.active),
        }
    }
}

impl Switches {
    /// No outputs and none active.
    pub fn new() -> (s: Self)
        ensures
            s@.outputs.len() == 0,
            s@.active is None,
    {
        Switches { outputs: Vec::new(), active: None }
    }

    /// Appends an output.
    pub fn push(&mut self, output: Output)
        ensures
            final(self)@.outputs == old(self)@.outputs.push(output@),
            final(self)@.active == old(self)@.active,
    {
        self.outputs.push(output);
        proof {
            assert(self@.outputs =~= old(self)@.outputs.push(output@));
        }
    }

    /// Marks an output as the active one.
    pub fn set_active(&mut self, output: Output)
        ensures
            final(self)@.outputs == old(self)@.outputs,
            final(self)@.active == Some(output@),
    {
        self.active = Some(output);
    }

    /// The outputs offered, in arrival order.
    pub fn outputs(&self) -> (res: &Vec<Output>)
        ensures
            res@.map_values(|o: Output| o@) == self@.outputs,
    {
        &self.outputs
    }

    /// The output marked active, if any.
    pub fn active(&self) -> (res: &Option<Output>)
        ensures
            opt_output(*res) == self@.active,
    {
        &self.active
    }
}

/// The part of the application that follows the outputs.
pub struct App {
    pub filter: FilterConfig,
    pub switches: Switches,
}

/// An output passes the filter when it is shown as one item whose name is
/// the sink name and whose node name is the port name: a whitelist pattern
/// must match one of them, and a blacklist pattern that matches either hides it.
pub open spec fn output_passes(filter: FilterSpec, output: OutputSpec) -> bool {
    shown(filter, output.name, None, Some(output.port), None)
}

/// The switches after one message: an output that passes the filter is
/// added (`New`) or made active (`Master`); any other leaves them as they were.
pub open spec fn after_message(filter: FilterSpec, switches: SwitchesSpec, msg: MessageOutput) -> SwitchesSpec {
    match msg {
        MessageOutput::New(o) => if output_passes(filter, o@) {
            SwitchesSpec { outputs: switches.outputs.push(o@), active: switches.active }
        } else {
            switches
        },
        MessageOutput::Master(o) => if output_passes(filter, o@) {
            SwitchesSpec { outputs: switches.outputs, active: Some(o@) }
        } else {
            switches
        },
    }
}

impl App {
    /// An application with this filter and no outputs yet.
    pub fn new(filter: FilterConfig) -> (app: Self)
        ensures
            app.filter == filter,
            app.switches@.outputs.len() == 0,
            app.switches@.active is None,
    {
        App { filter, switches: Switches::new() }
    }

    /// Applies a message about outputs. The sink name and the port name are
    /// filtered as two fields of one item (see [`output_passes`]).
    pub fn handle_msg_output(&mut self, msg: MessageOutput)
        ensures
            final(self).filter == old(self).filter,
            final(self).switches@ == after_message(old(self).filter@, old(self).switches@, msg),
    {
        match msg {
            MessageOutput::New(output) => {
                if should_show_with_fields(
                    output.name.as_str(),
                    None,
                    Some(output.port.as_str()),
                    None,
                    &self.filter,
                ) {
                    self.switches.push(output);
                }
            },
            MessageOutput::Master(output) => {
                if should_show_with_fields(
                    output.name.as_str(),
                    None,
                    Some(output.port.as_str()),
                    None,
                    &self.filter,
                ) {
                    self.switches.set_active(output);
                }
            },
        }
    }
}

} // verus!

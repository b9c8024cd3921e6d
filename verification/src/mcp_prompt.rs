//! Collecting the arguments of an MCP prompt one at a time, and what running
//! it reports.

use vstd::prelude::*;
use crate::session::McpPromptRequest;
use crate::text::{concat2, concat3, push_str, str_eq, str_is_empty, str_to_string, trim, trim_seq};

verus! {

/// One argument a prompt takes.
pub struct McpPromptArg {
    pub name: String,
    pub title: Option<String>,
    pub required: bool,
}

/// The arguments of a prompt being asked for: which one comes next and the
/// values given so far, by argument name.
pub struct McpPromptInput {
    pub server_id: String,
    pub prompt_name: String,
    pub pending_args: Vec<McpPromptArg>,
    pub next_index: usize,
    pub collected: Vec<(String, String)>,
}

/// `values` with `name` set to `value`: replaced where it is, or added at
/// the end.
pub open spec fn with_value(values: Seq<(String, String)>, name: String, value: String) -> Seq<
    (String, String),
>
    decreases values.len(),
{
    if values.len() == 0 {
        seq![(name, value)]
    } else if values[0].0@ == name@ {
        seq![(values[0].0, value)] + values.drop_first()
    } else {
        seq![values[0]] + with_value(values.drop_first(), name, value)
    }
}

fn set_value(values: &mut Vec<(String, String)>, name: String, value: String)
    ensures
        final(values)@ == with_value(old(values)@, name, value),
{
    let ghost v0 = values@;
    let mut i: usize = 0;
    assert(v0.take(0) =~= Seq::<(String, String)>::empty());
    assert(v0.skip(0) =~= v0);
    while i < values.len()
        invariant
            values@ == v0,
            old(values)@ == v0,
            i <= v0.len(),
            with_value(v0, name, value) == v0.take(i as int) + with_value(v0.skip(i as int), name, value),
        decreases values.len() - i,
    {
        let ghost rest = v0.skip(i as int);
        assert(rest[0] == v0[i as int]);
        assert(rest.drop_first() =~= v0.skip(i + 1));
        if str_eq(values[i].0.as_str(), name.as_str()) {
            assert(with_value(rest, name, value) == seq![(rest[0].0, value)] + rest.drop_first());
            let old_entry = values.remove(i);
            values.insert(i, (old_entry.0, value));
            assert(values@ =~= v0.take(i as int) + (seq![(v0[i as int].0, value)] + rest.drop_first()));
            return ;
        }
        assert(v0.take(i + 1) + with_value(v0.skip(i + 1), name, value) =~= v0.take(i as int) + (seq![
            v0[i as int],
        ] + with_value(rest.drop_first(), name, value)));
        i = i + 1;
    }
    assert(v0.take(i as int) =~= v0);
    assert(v0.skip(i as int) =~= Seq::<(String, String)>::empty());
    values.push((name, value));
    assert(values@ =~= v0 + seq![(name, value)]);
}

/// What giving a value for the next argument leads to.
pub enum PromptArgStep {
    /// There was no argument left to ask for: the prompt input closes.
    Cancelled,
    /// A required argument was left blank; the status says so and the same
    /// argument is asked again.
    ValueRequired { status: String },
    /// The next argument is asked for.
    Next(McpPromptInput),
    /// Every argument was given: the prompt runs.
    Run(McpPromptRequest),
}

/// The status when a required argument is left blank: its title, else its
/// name.
pub open spec fn value_required_status(arg: McpPromptArg) -> Seq<char> {
    "Value required for "@ + match arg.title {
        Some(t) => t@,
        None => arg.name@,
    }
}

/// `next` records the trimmed `value` for the argument `arg` of `input`
/// (an optional argument left blank is not recorded) and moves on.
pub open spec fn value_taken(input: McpPromptInput, arg: McpPromptArg, value: Seq<char>, next: McpPromptInput) -> bool {
    let t = trim_seq(value);
    &&& next.server_id == input.server_id
    &&& next.prompt_name == input.prompt_name
    &&& next.pending_args == input.pending_args
    &&& next.next_index == input.next_index + 1
    &&& if t.len() > 0 || arg.required {
        exists|v: String| v@ == t && next.collected@ == with_value(input.collected@, arg.name, v)
    } else {
        next.collected == input.collected
    }
}

/// Takes `value` as the next argument of a prompt: a blank required value
/// is refused; otherwise the trimmed value is kept (blank optional values
/// are skipped), and the prompt runs once no argument is left.
pub fn complete_mcp_prompt_arg(input: McpPromptInput, value: &str) -> (r: PromptArgStep)
    ensures
        input.next_index >= input.pending_args@.len() ==> r is Cancelled,
        input.next_index < input.pending_args@.len() ==> {
            let arg = input.pending_args@[input.next_index as int];
            let t = trim_seq(value@);
            if arg.required && t.len() == 0 {
                r matches PromptArgStep::ValueRequired { status } && status@ == value_required_status(arg)
            } else if input.next_index + 1 < input.pending_args@.len() {
                r matches PromptArgStep::Next(next) && value_taken(input, arg, value@, next)
            } else {
                r matches PromptArgStep::Run(req) && req.server_id == input.server_id
                    && req.prompt_name == input.prompt_name && if t.len() > 0 || arg.required {
                    exists|v: String| v@ == t && req.arguments@ == with_value(input.collected@, arg.name, v)
                } else {
                    req.arguments == input.collected
                }
            }
        },
{
    if input.next_index >= input.pending_args.len() {
        return PromptArgStep::Cancelled;
    }
    let ghost input0 = input;
    let ghost arg0 = input.pending_args@[input.next_index as int];
    let trimmed = trim(value);
    let (required, name, label) = {
        let arg = &input.pending_args[input.next_index];
        let label = match &arg.title {
            Some(t) => t.clone(),
            None => arg.name.clone(),
        };
        (arg.required, arg.name.clone(), label)
    };
    if required && str_is_empty(trimmed.as_str()) {
        return PromptArgStep::ValueRequired { status: concat2("Value required for ", label.as_str()) };
    }
    let McpPromptInput { server_id, prompt_name, pending_args, next_index, collected } = input;
    let mut collected = collected;
    let keep = !str_is_empty(trimmed.as_str()) || required;
    let ghost tv = trimmed;
    if keep {
        set_value(&mut collected, name, trimmed);
    }
    let next_index = next_index + 1;
    if next_index < pending_args.len() {
        let next = McpPromptInput { server_id, prompt_name, pending_args, next_index, collected };
        proof {
            if keep {
                assert(tv@ == trim_seq(value@) && next.collected@ == with_value(input0.collected@, arg0.name, tv));
            }
        }
        return PromptArgStep::Next(next);
    }
    let req = McpPromptRequest { server_id, prompt_name, arguments: collected };
    proof {
        if keep {
            assert(tv@ == trim_seq(value@) && req.arguments@ == with_value(input0.collected@, arg0.name, tv));
        }
    }
    PromptArgStep::Run(req)
}

/// What running an MCP prompt reports: its failure, that it gave no
/// message, or that it was applied.
pub open spec fn prompt_report(request: McpPromptRequest, outcome: Result<nat, Seq<char>>) -> Seq<char> {
    let name = request.server_id@ + ":"@ + request.prompt_name@;
    match outcome {
        Err(e) => "MCP prompt "@ + name + " failed: "@ + e,
        Ok(n) => if n == 0 {
            "MCP prompt "@ + name + " returned no messages."@
        } else {
            "Applied MCP prompt "@ + name + "."@
        },
    }
}

/// The report after running `request`: `outcome` is the number of
/// messages the prompt gave, or its error.
pub fn mcp_prompt_report(request: &McpPromptRequest, outcome: &Result<usize, String>) -> (r: String)
    ensures
        r@ == prompt_report(*request, match outcome {
            Ok(n) => Ok(*n as nat),
            Err(e) => Err(e@),
        }),
{
    let mut name = concat3(request.server_id.as_str(), ":", request.prompt_name.as_str());
    match outcome {
        Err(e) => {
            let mut s = concat2("MCP prompt ", name.as_str());
            push_str(&mut s, " failed: ");
            push_str(&mut s, e.as_str());
            s
        },
        Ok(n) => if *n == 0 {
            concat3("MCP prompt ", name.as_str(), " returned no messages.")
        } else {
            concat3("Applied MCP prompt ", name.as_str(), ".")
        },
    }
}

} // verus!

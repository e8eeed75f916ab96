use vstd::prelude::*;
use vstd::string::StringExecFns;

use crate::base::Context;
use crate::calls::GlCall;
use crate::utils::Error;

verus! {

/// Pipeline stage of a shader.
#[derive(Debug, Clone, Copy, PartialEq, Eq, Structural)]
pub enum ShaderStage {
    Vertex,
    Fragment,
    Geometry,
}

/// Identifier of a compiled shader. Never `0`.
#[derive(Debug, Clone, Copy, PartialEq, Eq)]
pub struct ShaderId {
    id: u32,
}

impl View for ShaderId {
    type V = u32;

    closed spec fn view(&self) -> u32 {
        self.id
    }
}

impl ShaderId {
    #[verifier::type_invariant]
    spec fn inv(self) -> bool {
        self.id != 0
    }

    /// The identifier for a driver handle; `None` for the reserved handle `0`.
    pub fn new(id: u32) -> (r: Option<ShaderId>)
        ensures
            r is Some <==> id != 0,
            r matches Some(s) ==> s@ == id,
    {
        if id == 0 {
            None
        } else {
            Some(ShaderId { id })
        }
    }

    /// The raw driver handle.
    pub fn get(&self) -> (r: u32)
        ensures
            r == self@,
            r != 0,
    {
        proof {
            use_type_invariant(self);
        }
        self.id
    }
}

/// The decimal digit `d`.
pub open spec fn digit_char(d: nat) -> char {
    if d == 0 {
        '0'
    } else if d == 1 {
        '1'
    } else if d == 2 {
        '2'
    } else if d == 3 {
        '3'
    } else if d == 4 {
        '4'
    } else if d == 5 {
        '5'
    } else if d == 6 {
        '6'
    } else if d == 7 {
        '7'
    } else if d == 8 {
        '8'
    } else {
        '9'
    }
}

/// `n` written in decimal.
pub open spec fn decimal(n: nat) -> Seq<char>
    decreases n,
{
    if n < 10 {
        seq![digit_char(n)]
    } else {
        decimal(n / 10).push(digit_char(n % 10))
    }
}

/// Source `i` of a multi-part shader, preceded by a directive that numbers its lines from 1
/// within source string `i`.
pub open spec fn numbered_source(i: nat, source: Seq<char>) -> Seq<char> {
    "#line 1 "@ + decimal(i) + "\n"@ + source
}

/// The first `n` sources, each numbered.
pub open spec fn numbered_sources(sources: Seq<Seq<char>>, n: nat) -> Seq<char>
    decreases n,
{
    if n == 0 {
        Seq::empty()
    } else {
        numbered_sources(sources, (n - 1) as nat) + numbered_source((n - 1) as nat, sources[n - 1])
    }
}

/// The text compiled for a shader made of several sources: a version line, then each source
/// after its line directive.
pub open spec fn multi_source(sources: Seq<Seq<char>>) -> Seq<char> {
    "#version 330 core\n"@ + numbered_sources(sources, sources.len())
}

fn digit_str(d: usize) -> (r: &'static str)
    requires
        d < 10,
    ensures
        r@ == seq![digit_char(d as nat)],
{
    proof {
        reveal_strlit("0");
        reveal_strlit("1");
        reveal_strlit("2");
        reveal_strlit("3");
        reveal_strlit("4");
        reveal_strlit("5");
        reveal_strlit("6");
        reveal_strlit("7");
        reveal_strlit("8");
        reveal_strlit("9");
    }
    if d == 0 {
        "0"
    } else if d == 1 {
        "1"
    } else if d == 2 {
        "2"
    } else if d == 3 {
        "3"
    } else if d == 4 {
        "4"
    } else if d == 5 {
        "5"
    } else if d == 6 {
        "6"
    } else if d == 7 {
        "7"
    } else if d == 8 {
        "8"
    } else {
        "9"
    }
}

/// Appends `n` in decimal to `out`.
fn push_decimal(out: &mut String, n: usize)
    ensures
        final(out)@ == old(out)@ + decimal(n as nat),
    decreases n,
{
    if n >= 10 {
        push_decimal(out, n / 10);
    }
    out.append(digit_str(n % 10));
    proof {
        if n >= 10 {
            assert(final(out)@ =~= old(out)@ + decimal(n as nat));
        } else {
            assert(final(out)@ =~= old(out)@ + decimal(n as nat));
        }
    }
}

/// A compiled shader of one stage, owned by whoever holds the value.
///
/// The owner gives it back with [`Shader::delete`], or hands it to
/// [`Program::from_sources`](crate::program::Program::from_sources), which takes ownership:
/// it attaches the shader, requests linking, and then deletes it; the driver keeps a deleted
/// shader alive while it stays attached to a program.
/// [`Program::from_shaders`](crate::program::Program::from_shaders) only reads identifiers and
/// leaves the shaders with their owner.
#[derive(Debug)]
pub struct Shader {
    pub id: ShaderId,
    pub stage: ShaderStage,
}

impl Shader {
    /// Asks the driver to compile `source` into the shader object `handle`; [`Shader::new`]
    /// takes the outcome.
    pub fn request_compile(ctx: &mut Context, handle: u32, source: String)
        ensures
            final(ctx).slots() == old(ctx).slots(),
            final(ctx).spec_alignment() == old(ctx).spec_alignment(),
            final(ctx).restores() == old(ctx).restores(),
            final(ctx).wf() == old(ctx).wf(),
            final(ctx).pending() == old(ctx).pending().push(GlCall::CompileShader { id: handle, source }),
    {
        ctx.push(GlCall::CompileShader { id: handle, source });
    }

    /// Asks the driver to compile `sources` as one shader into the object `handle`: a version
    /// line, then each source preceded by a directive that numbers its lines within it, so that
    /// diagnostics name the source they come from.
    pub fn request_compile_multiple(ctx: &mut Context, handle: u32, sources: &Vec<String>)
        ensures
            final(ctx).slots() == old(ctx).slots(),
            final(ctx).spec_alignment() == old(ctx).spec_alignment(),
            final(ctx).restores() == old(ctx).restores(),
            final(ctx).wf() == old(ctx).wf(),
            exists|text: String|
                #[trigger] text@ == multi_source(sources@.map_values(|s: String| s@)) && final(ctx).pending()
                    == old(ctx).pending().push(GlCall::CompileShader { id: handle, source: text }),
    {
        let ghost views = sources@.map_values(|s: String| s@);
        proof {
            reveal_strlit("#version 330 core\n");
            reveal_strlit("#line 1 ");
            reveal_strlit("\n");
        }
        let mut text = String::from_str("#version 330 core\n");
        let mut i: usize = 0;
        while i < sources.len()
            invariant
                i <= sources@.len(),
                views == sources@.map_values(|s: String| s@),
                text@ == "#version 330 core\n"@ + numbered_sources(views, i as nat),
            decreases sources.len() - i,
        {
            let ghost before = text@;
            text.append("#line 1 ");
            push_decimal(&mut text, i);
            text.append("\n");
            text.append(sources[i].as_str());
            assert(text@ =~= before + numbered_source(i as nat, views[i as int]));
            i = i + 1;
        }
        let ghost t = text@;
        ctx.push(GlCall::CompileShader { id: handle, source: text });
        assert(t == multi_source(views));
    }

    /// Finishes compiling a shader: `handle` is the object the driver created for `stage`,
    /// `success` its compile status and `log` its info log. A failed compilation is final and
    /// its log is the error, verbatim.
    pub fn new(stage: ShaderStage, handle: u32, success: bool, log: String) -> (r: Result<Shader, Error>)
        ensures
            handle == 0 ==> r matches Err(Error::NullHandle),
            handle != 0 && success ==> (r matches Ok(s) && s.id@ == handle && s.stage == stage),
            handle != 0 && !success ==> (r matches Err(Error::Compile { stage: st, log: l })
                && st == stage && l@ == log@),
    {
        match ShaderId::new(handle) {
            None => Err(Error::NullHandle),
            Some(id) => {
                if success {
                    Ok(Shader { id, stage })
                } else {
                    Err(Error::Compile { stage, log })
                }
            },
        }
    }

    /// Deletes the shader object.
    pub fn delete(self, ctx: &mut Context)
        ensures
            final(ctx).slots() == old(ctx).slots(),
            final(ctx).spec_alignment() == old(ctx).spec_alignment(),
            final(ctx).restores() == old(ctx).restores(),
            final(ctx).wf() == old(ctx).wf(),
            final(ctx).pending() == old(ctx).pending().push(GlCall::DeleteShader { id: self.id@ }),
    {
        let id = self.id.get();
        ctx.push(GlCall::DeleteShader { id });
    }
}

} // verus!

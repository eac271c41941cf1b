//! The context of one evaluation of a chain of filter primitives.

use crate::region::Region;
use crate::surface::SharedImageBuffer;
use crate::text::same_text;
use vstd::prelude::*;

verus! {

/// Why a filter primitive could not be rendered.
#[derive(Clone, Copy, Debug, PartialEq, Eq, Structural)]
pub enum FilterError {
    /// A child element that the primitive reads its parameters from failed
    /// its validation.
    ChildNodeInError,
}

/// The image that a primitive produced, with the region that it computed.
pub struct FilterOutput {
    pub surface: SharedImageBuffer,
    pub bounds: Region,
}

/// The output of a primitive together with the name under which later
/// primitives can ask for it, if it has one.
pub struct FilterResult {
    pub name: Option<String>,
    pub output: FilterOutput,
}

/// The image that a primitive reads.
pub enum FilterInput {
    /// The source graphic.
    StandardInput(SharedImageBuffer),
    /// The output of an earlier primitive.
    PrimitiveOutput(FilterOutput),
}

impl FilterInput {
    /// The image of the input.
    pub open spec fn spec_surface(&self) -> SharedImageBuffer {
        match self {
            FilterInput::StandardInput(surface) => *surface,
            FilterInput::PrimitiveOutput(output) => output.surface,
        }
    }

    /// The image of the input.
    pub fn surface(&self) -> (surface: &SharedImageBuffer)
        ensures
            *surface == self.spec_surface(),
    {
        match self {
            FilterInput::StandardInput(surface) => surface,
            FilterInput::PrimitiveOutput(output) => &output.surface,
        }
    }
}

struct NamedOutput {
    name: String,
    output: FilterOutput,
}

/// The outputs that a run of registrations leaves under each name: of two
/// registrations under one name the later stands.
spec fn registered(entries: Seq<NamedOutput>) -> Map<Seq<char>, FilterOutput>
    decreases entries.len(),
{
    if entries.len() == 0 {
        Map::empty()
    } else {
        registered(entries.drop_last()).insert(entries.last().name@, entries.last().output)
    }
}

/// The state of one evaluation of a chain of filter primitives: the source
/// graphic, and the outputs of the primitives so far that have a name.
pub struct FilterContext {
    source: SharedImageBuffer,
    results: Vec<NamedOutput>,
}

impl FilterContext {
    /// The source graphic.
    pub closed spec fn source(&self) -> SharedImageBuffer {
        self.source
    }

    /// The outputs registered so far, by name.
    pub closed spec fn results(&self) -> Map<Seq<char>, FilterOutput> {
        registered(self.results@)
    }

    /// The extent of the canvas: the whole of the source graphic.
    pub open spec fn extent(&self) -> Region {
        Region {
            x0: 0,
            y0: 0,
            x1: self.source()@.width as i32,
            y1: self.source()@.height as i32,
        }
    }

    /// The input that a name stands for: the output registered under the
    /// name, and the source graphic where no name is given or nothing is
    /// registered under it.
    pub open spec fn input(&self, name: Option<Seq<char>>) -> FilterInput {
        match name {
            Some(n) => if self.results().contains_key(n) {
                FilterInput::PrimitiveOutput(self.results()[n])
            } else {
                FilterInput::StandardInput(self.source())
            },
            None => FilterInput::StandardInput(self.source()),
        }
    }

    /// The region of an input: the bounds of the output of a primitive, and
    /// for the source graphic the whole canvas.
    pub open spec fn input_bounds(&self, input: FilterInput) -> Region {
        match input {
            FilterInput::StandardInput(_) => self.extent(),
            FilterInput::PrimitiveOutput(output) => output.bounds,
        }
    }

    /// A context for the given source graphic, with nothing registered.
    pub fn new(source: SharedImageBuffer) -> (ctx: FilterContext)
        ensures
            ctx.source() == source,
            ctx.results() == Map::<Seq<char>, FilterOutput>::empty(),
    {
        FilterContext { source, results: Vec::new() }
    }

    /// The source graphic, unmodified.
    pub fn source_graphic(&self) -> (source: &SharedImageBuffer)
        ensures
            *source == self.source(),
    {
        &self.source
    }

    /// The width of the canvas.
    pub fn width(&self) -> (width: u32)
        ensures
            width == self.source()@.width,
            self.source()@.wf(),
    {
        self.source.width()
    }

    /// The height of the canvas.
    pub fn height(&self) -> (height: u32)
        ensures
            height == self.source()@.height,
            self.source()@.wf(),
    {
        self.source.height()
    }

    /// The extent of the canvas.
    pub fn canvas_extent(&self) -> (extent: Region)
        ensures
            extent == self.extent(),
    {
        let width: u32 = self.source.width();
        let height: u32 = self.source.height();
        Region { x0: 0, y0: 0, x1: width as i32, y1: height as i32 }
    }

    /// Registers the result of a primitive. A result with a name replaces
    /// what was registered under that name; a result without a name leaves
    /// the registrations as they are.
    pub fn store_result(&mut self, result: FilterResult)
        ensures
            final(self).source() == old(self).source(),
            final(self).results() == match result.name {
                Some(name) => old(self).results().insert(name@, result.output),
                None => old(self).results(),
            },
    {
        match result.name {
            Some(name) => {
                let ghost before = self.results@;
                self.results.push(NamedOutput { name, output: result.output });
                assert(self.results@.drop_last() == before);
            },
            None => {},
        }
    }

    /// Resolves the input of a primitive: the most recent output registered
    /// under the name, and the source graphic where no name is given or
    /// nothing is registered under it.
    pub fn lookup(&self, name: Option<&str>) -> (input: FilterInput)
        ensures
            input == self.input(
                match name {
                    Some(n) => Some(n@),
                    None => None,
                },
            ),
    {
        match name {
            Some(n) => {
                let mut i: usize = self.results.len();
                assert(self.results@.take(i as int) == self.results@);
                while i > 0
                    invariant
                        i <= self.results@.len(),
                        name == Some(n),
                        registered(self.results@).contains_key(n@) <==> registered(
                            self.results@.take(i as int),
                        ).contains_key(n@),
                        registered(self.results@).contains_key(n@) ==> registered(
                            self.results@,
                        )[n@] == registered(self.results@.take(i as int))[n@],
                    decreases i,
                {
                    i -= 1;
                    let entry = &self.results[i];
                    proof {
                        let upto = self.results@.take(i + 1);
                        assert(upto.drop_last() == self.results@.take(i as int));
                        assert(upto.last() == self.results@[i as int]);
                    }
                    if same_text(entry.name.as_str(), n) {
                        let found = FilterOutput {
                            surface: entry.output.surface.clone_handle(),
                            bounds: entry.output.bounds,
                        };
                        return FilterInput::PrimitiveOutput(found);
                    }
                }
                FilterInput::StandardInput(self.source.clone_handle())
            },
            None => FilterInput::StandardInput(self.source.clone_handle()),
        }
    }

    /// The region of an input of this context.
    pub fn bounds_of(&self, input: &FilterInput) -> (bounds: Region)
        ensures
            bounds == self.input_bounds(*input),
    {
        match input {
            FilterInput::StandardInput(_) => self.canvas_extent(),
            FilterInput::PrimitiveOutput(output) => output.bounds,
        }
    }
}

} // verus!

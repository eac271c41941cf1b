//! The component transfer filter primitive: the resolution of its four
//! transfer functions and the loop over the pixels.

use crate::arithmetic::Arithmetic;
use crate::context::FilterContext;
use crate::context::FilterError;
use crate::context::FilterInput;
use crate::context::FilterOutput;
use crate::context::FilterResult;
use crate::evaluator::compute;
use crate::evaluator::computation_of;
use crate::evaluator::evaluate;
use crate::evaluator::evaluation_of;
use crate::evaluator::quantize;
use crate::evaluator::sample_of;
use crate::evaluator::unit;
use crate::evaluator::unit_of;
use crate::node::ElementData;
use crate::node::Node;
use crate::node::NodeData;
use crate::number::Number;
use crate::region::Region;
use crate::surface::transparent;
use crate::surface::ExclusiveImageBuffer;
use crate::surface::Image;
use crate::surface::Pixel;
use crate::surface::SharedImageBuffer;
use crate::transfer::default_func;
use crate::transfer::is_degenerate;
use crate::transfer::Channel;
use crate::transfer::FeFunc;
use crate::transfer::FeFuncView;
use crate::transfer::Functions;
use crate::transfer::FunctionsView;
use vstd::pervasive::unreached;
use vstd::prelude::*;

verus! {

/// The transfer function element that a node holds for a channel, if it
/// holds one.
pub open spec fn func_of(node: Node, channel: Channel) -> Option<FeFunc> {
    match node.data {
        NodeData::Element(element) => match element.data {
            ElementData::FeFunc(func) => if func@.channel == channel {
                Some(func)
            } else {
                None
            },
            _ => None,
        },
        NodeData::Text => None,
    }
}

/// Whether a node holds an element that failed its validation.
pub open spec fn node_in_error(node: Node) -> bool {
    node.data matches NodeData::Element(element) && element.in_error
}

/// The place of the child that gives the transfer function of a channel: the
/// last one, in document order, that holds a function for the channel.
pub open spec fn last_func(children: Seq<Node>, channel: Channel) -> Option<int>
    decreases children.len(),
{
    if children.len() == 0 {
        None
    } else if func_of(children.last(), channel) is Some {
        Some(children.len() - 1)
    } else {
        last_func(children.drop_last(), channel)
    }
}

/// Whether the child that gives the transfer function of a channel failed
/// its validation.
pub open spec fn selected_in_error(children: Seq<Node>, channel: Channel) -> bool {
    last_func(children, channel) matches Some(i) && node_in_error(children[i])
}

/// Whether the child that gives the transfer function of any of the four
/// channels failed its validation.
pub open spec fn any_selected_in_error(children: Seq<Node>) -> bool {
    selected_in_error(children, Channel::R) || selected_in_error(children, Channel::G)
        || selected_in_error(children, Channel::B) || selected_in_error(children, Channel::A)
}

/// The transfer function of a channel: that of the child selected for the
/// channel, and the default where no child holds one.
pub open spec fn resolved_func(children: Seq<Node>, channel: Channel) -> FeFuncView {
    match last_func(children, channel) {
        Some(i) => func_of(children[i], channel)->0@,
        None => default_func(channel),
    }
}

/// The transfer functions of the four channels that the children resolve
/// to.
pub open spec fn resolved_functions(children: Seq<Node>) -> FunctionsView {
    FunctionsView {
        r: resolved_func(children, Channel::R),
        g: resolved_func(children, Channel::G),
        b: resolved_func(children, Channel::B),
        a: resolved_func(children, Channel::A),
    }
}

/// The child selected for a channel holds a function for it, and no later
/// child does. Where none is selected, no child holds one.
pub proof fn lemma_last_func_is_last(children: Seq<Node>, channel: Channel)
    ensures
        match last_func(children, channel) {
            Some(i) => {
                &&& 0 <= i < children.len()
                &&& func_of(children[i], channel) is Some
                &&& forall|j: int|
                    i < j < children.len() ==> func_of(#[trigger] children[j], channel) is None
            },
            None => forall|j: int|
                0 <= j < children.len() ==> func_of(#[trigger] children[j], channel) is None,
        },
    decreases children.len(),
{
    if children.len() > 0 && func_of(children.last(), channel) is None {
        let front = children.drop_last();
        lemma_last_func_is_last(front, channel);
        assert forall|j: int| 0 <= j < front.len() implies front[j] == children[j] by {}
        match last_func(front, channel) {
            Some(i) => {
                assert(front[i] == children[i]);
                assert forall|j: int| i < j < children.len() implies func_of(
                    #[trigger] children[j],
                    channel,
                ) is None by {
                    if j < front.len() {
                        assert(front[j] == children[j]);
                    }
                }
            },
            None => {
                assert forall|j: int| 0 <= j < children.len() implies func_of(
                    #[trigger] children[j],
                    channel,
                ) is None by {
                    if j < front.len() {
                        assert(front[j] == children[j]);
                    }
                }
            },
        }
    }
}

/// Where no child holds a transfer function, every channel has its default
/// function, which is the identity.
pub proof fn lemma_no_functions_resolve_to_defaults(children: Seq<Node>)
    requires
        forall|i: int, channel: Channel|
            0 <= i < children.len() ==> #[trigger] func_of(children[i], channel) is None,
    ensures
        resolved_functions(children) == (FunctionsView {
            r: default_func(Channel::R),
            g: default_func(Channel::G),
            b: default_func(Channel::B),
            a: default_func(Channel::A),
        }),
        resolved_functions(children).r.function_type is Identity,
        resolved_functions(children).g.function_type is Identity,
        resolved_functions(children).b.function_type is Identity,
        resolved_functions(children).a.function_type is Identity,
        !any_selected_in_error(children),
{
    lemma_last_func_is_last(children, Channel::R);
    lemma_last_func_is_last(children, Channel::G);
    lemma_last_func_is_last(children, Channel::B);
    lemma_last_func_is_last(children, Channel::A);
}

/// Scans the children from the last to the first for the one that holds the
/// transfer function of a channel.
fn find_func(children: &Vec<Node>, channel: Channel) -> (found: Option<usize>)
    ensures
        match found {
            Some(i) => last_func(children@, channel) == Some(i as int) && i < children@.len()
                && func_of(children@[i as int], channel) is Some,
            None => last_func(children@, channel) is None,
        },
{
    let mut i: usize = children.len();
    assert(children@.take(i as int) == children@);
    while i > 0
        invariant
            i <= children@.len(),
            last_func(children@, channel) == last_func(children@.take(i as int), channel),
        decreases i,
    {
        i -= 1;
        proof {
            let upto = children@.take(i + 1);
            assert(upto.drop_last() == children@.take(i as int));
            assert(upto.last() == children@[i as int]);
        }
        match &children[i].data {
            NodeData::Element(element) => match &element.data {
                ElementData::FeFunc(func) => {
                    if func.channel() == channel {
                        return Some(i);
                    }
                },
                _ => {},
            },
            NodeData::Text => {},
        }
    }
    None
}

/// Whether the child at a place failed its validation.
fn child_in_error(children: &Vec<Node>, place: Option<usize>) -> (in_error: bool)
    requires
        place matches Some(i) ==> i < children@.len(),
    ensures
        in_error == (place matches Some(i) && node_in_error(children@[i as int])),
{
    match place {
        Some(i) => match &children[i].data {
            NodeData::Element(element) => element.is_in_error(),
            NodeData::Text => false,
        },
        None => false,
    }
}

/// The function of the child at a place, or the default of the channel where
/// there is no such child.
fn func_or_default(children: &Vec<Node>, place: Option<usize>, channel: Channel) -> (func: FeFunc)
    requires
        place matches Some(i) ==> i < children@.len() && func_of(children@[i as int], channel)
            is Some,
    ensures
        func@ == match place {
            Some(i) => func_of(children@[i as int], channel)->0@,
            None => default_func(channel),
        },
        !is_degenerate(func@),
{
    match place {
        Some(i) => match &children[i].data {
            NodeData::Element(element) => match &element.data {
                ElementData::FeFunc(func) => func.duplicate(),
                _ => unreached(),
            },
            NodeData::Text => unreached(),
        },
        None => FeFunc::new(channel),
    }
}

/// Walks the children of a component transfer primitive and resolves the
/// transfer functions of its four channels.
///
/// For each channel the last child, in document order, that holds a function
/// for the channel is selected; a channel without such a child has the
/// default function. Where a selected child failed its validation, no
/// functions are produced and the result is `ChildNodeInError`.
pub fn get_parameters(node: &Node) -> (resolved: Result<Functions, FilterError>)
    ensures
        resolved is Err <==> any_selected_in_error(node.children@),
        resolved matches Err(error) ==> error == FilterError::ChildNodeInError,
        forall|channel: Channel|
            selected_in_error(node.children@, channel) ==> resolved matches Err(
                FilterError::ChildNodeInError,
            ),
        resolved matches Ok(functions) ==> {
            &&& functions@ == resolved_functions(node.children@)
            &&& functions.r@.channel == Channel::R
            &&& functions.g@.channel == Channel::G
            &&& functions.b@.channel == Channel::B
            &&& functions.a@.channel == Channel::A
            &&& !is_degenerate(functions.r@)
            &&& !is_degenerate(functions.g@)
            &&& !is_degenerate(functions.b@)
            &&& !is_degenerate(functions.a@)
        },
{
    let children = &node.children;
    let func_r_node = find_func(children, Channel::R);
    let func_g_node = find_func(children, Channel::G);
    let func_b_node = find_func(children, Channel::B);
    let func_a_node = find_func(children, Channel::A);

    if child_in_error(children, func_r_node) || child_in_error(children, func_g_node)
        || child_in_error(children, func_b_node) || child_in_error(children, func_a_node) {
        return Err(FilterError::ChildNodeInError);
    }
    let r = func_or_default(children, func_r_node, Channel::R);
    let g = func_or_default(children, func_g_node, Channel::G);
    let b = func_or_default(children, func_b_node, Channel::B);
    let a = func_or_default(children, func_a_node, Channel::A);

    Ok(Functions { r, g, b, a })
}

/// What every filter primitive with one input declares: the name of its
/// input, the name of its result, and its subregion in device pixels.
pub struct PrimitiveWithInput {
    pub input: Option<String>,
    pub result: Option<String>,
    pub subregion: Option<Region>,
}

/// The component transfer filter primitive.
pub struct FeComponentTransfer {
    pub base: PrimitiveWithInput,
}

/// One attribute of a filter primitive, as the reader of the markup hands
/// it on: the name of the input, the name of the result, or the subregion
/// resolved to device pixels.
pub enum PrimitiveAttribute {
    In(String),
    Result(String),
    Subregion(Region),
}

/// The declarations of a primitive after one attribute was set.
pub open spec fn apply_primitive_attribute(
    base: PrimitiveWithInput,
    attribute: PrimitiveAttribute,
) -> PrimitiveWithInput {
    match attribute {
        PrimitiveAttribute::In(name) => PrimitiveWithInput { input: Some(name), ..base },
        PrimitiveAttribute::Result(name) => PrimitiveWithInput { result: Some(name), ..base },
        PrimitiveAttribute::Subregion(region) => PrimitiveWithInput {
            subregion: Some(region),
            ..base
        },
    }
}

/// The declarations of a primitive after a run of attributes, set in their
/// order. Of an attribute that occurs twice the later value stands.
pub open spec fn apply_primitive_attributes(
    base: PrimitiveWithInput,
    attributes: Seq<PrimitiveAttribute>,
) -> PrimitiveWithInput
    decreases attributes.len(),
{
    if attributes.len() == 0 {
        base
    } else {
        apply_primitive_attributes(
            apply_primitive_attribute(base, attributes[0]),
            attributes.drop_first(),
        )
    }
}

/// The region in which a primitive computes: its input's region, widened to
/// take in its own subregion where it declares one, and cut down to the
/// canvas.
pub open spec fn effective_bounds(
    subregion: Option<Region>,
    input_bounds: Region,
    extent: Region,
) -> Region {
    let merged = match subregion {
        Some(region) => input_bounds.union(region),
        None => input_bounds,
    };
    merged.intersection(extent)
}

/// Whether a pixel is what the transfer makes of another under the four
/// functions.
///
/// The alpha of the pixel is taken as a part of one, and the new alpha is
/// what the function of the alpha channel makes of it; it is not clamped.
/// Each colour sample is computed with the function of its own channel from
/// the sample and the alpha of the pixel as they were and from the new
/// alpha. The alpha sample is the new alpha as a sample.
pub open spec fn transferred<M: Arithmetic>(
    arithmetic: &M,
    functions: FunctionsView,
    from: Pixel,
    to: Pixel,
) -> bool {
    exists|alpha: Number, new_alpha: Number|
        {
            &&& #[trigger] unit_of(arithmetic, from.a, alpha)
            &&& #[trigger] evaluation_of(arithmetic, functions.a, alpha, new_alpha)
            &&& computation_of(arithmetic, functions.r, from.r, alpha, new_alpha, to.r)
            &&& computation_of(arithmetic, functions.g, from.g, alpha, new_alpha, to.g)
            &&& computation_of(arithmetic, functions.b, from.b, alpha, new_alpha, to.b)
            &&& sample_of(arithmetic, new_alpha, to.a)
        }
}

/// Whether an image is what the transfer makes of another image that shares
/// its places: inside the region, wherever the input has a pixel, the pixel
/// is transferred; everywhere else it is as it was before.
pub open spec fn transfers<M: Arithmetic>(
    arithmetic: &M,
    functions: FunctionsView,
    input: Image,
    bounds: Region,
    before: Image,
    after: Image,
) -> bool {
    &&& after.width == before.width
    &&& after.height == before.height
    &&& after.pixels.len() == before.pixels.len()
    &&& forall|x: int, y: int|
        before.in_bounds(x, y) ==> if bounds.contains(x, y) && input.in_bounds(x, y) {
            transferred(
                arithmetic,
                functions,
                input.pixel_at(x, y),
                #[trigger] after.pixel_at(x, y),
            )
        } else {
            after.pixel_at(x, y) == before.pixel_at(x, y)
        }
}

/// A coordinate brought into the range from zero to a limit.
pub open spec fn clip_of(edge: i32, limit: u32) -> int {
    if edge < 0 {
        0
    } else if edge > limit {
        limit as int
    } else {
        edge as int
    }
}

/// A coordinate brought into the range from zero to a limit.
fn clip(edge: i32, limit: u32) -> (clipped: u32)
    requires
        limit <= i32::MAX,
    ensures
        clipped == clip_of(edge, limit),
{
    if edge < 0 {
        0
    } else if edge as u32 > limit {
        limit
    } else {
        edge as u32
    }
}

/// The pixel that the transfer makes of a pixel.
pub fn transfer_pixel<M: Arithmetic>(
    functions: &Functions,
    pixel: Pixel,
    arithmetic: &M,
) -> (output_pixel: Pixel)
    ensures
        transferred(arithmetic, functions@, pixel, output_pixel),
{
    // Alpha gets special handling since everything else depends on it.
    let alpha = unit(pixel.a, arithmetic);
    let new_alpha = evaluate(&functions.a, alpha, arithmetic);

    Pixel {
        r: compute(&functions.r, pixel.r, alpha, new_alpha, arithmetic),
        g: compute(&functions.g, pixel.g, alpha, new_alpha, arithmetic),
        b: compute(&functions.b, pixel.b, alpha, new_alpha, arithmetic),
        a: quantize(new_alpha, arithmetic),
    }
}

/// Applies the transfer functions to the pixels of `input` that lie in
/// `bounds`, and writes the new pixels to the same places of `output`. The
/// places of `output` outside `bounds`, and those where `input` has no
/// pixel, stay as they are.
pub fn transfer_pixels<M: Arithmetic>(
    functions: &Functions,
    input: &SharedImageBuffer,
    output: &mut ExclusiveImageBuffer,
    bounds: Region,
    arithmetic: &M,
)
    ensures
        transfers(arithmetic, functions@, input@, bounds, old(output)@, final(output)@),
{
    let in_width: u32 = input.width();
    let in_height: u32 = input.height();
    let out_width: u32 = output.width();
    let out_height: u32 = output.height();
    let width: u32 = if in_width < out_width {
        in_width
    } else {
        out_width
    };
    let height: u32 = if in_height < out_height {
        in_height
    } else {
        out_height
    };
    let x0: u32 = clip(bounds.x0, width);
    let x1: u32 = clip(bounds.x1, width);
    let y0: u32 = clip(bounds.y0, height);
    let y1: u32 = clip(bounds.y1, height);

    let ghost before = output@;
    let mut y: u32 = y0;
    while y < y1
        invariant
            before == old(output)@,
            output@.width == before.width,
            output@.height == before.height,
            output@.pixels.len() == before.pixels.len(),
            out_width == before.width,
            out_height == before.height,
            in_width == input@.width,
            in_height == input@.height,
            width == if in_width < out_width { in_width } else { out_width },
            height == if in_height < out_height { in_height } else { out_height },
            x0 == clip_of(bounds.x0, width),
            x1 == clip_of(bounds.x1, width),
            y0 == clip_of(bounds.y0, height),
            y1 == clip_of(bounds.y1, height),
            y0 <= y,
            y <= y1 || y1 < y0,
            forall|px: int, py: int|
                before.in_bounds(px, py) ==> if py < y && bounds.contains(px, py)
                    && input@.in_bounds(px, py) {
                    transferred(
                        arithmetic,
                        functions@,
                        input@.pixel_at(px, py),
                        #[trigger] output@.pixel_at(px, py),
                    )
                } else {
                    output@.pixel_at(px, py) == before.pixel_at(px, py)
                },
        decreases y1 - y,
    {
        let mut x: u32 = x0;
        while x < x1
            invariant
                before == old(output)@,
                output@.width == before.width,
                output@.height == before.height,
                output@.pixels.len() == before.pixels.len(),
                out_width == before.width,
                out_height == before.height,
                in_width == input@.width,
                in_height == input@.height,
                width == if in_width < out_width { in_width } else { out_width },
                height == if in_height < out_height { in_height } else { out_height },
                x0 == clip_of(bounds.x0, width),
                x1 == clip_of(bounds.x1, width),
                y0 == clip_of(bounds.y0, height),
                y1 == clip_of(bounds.y1, height),
                y0 <= y < y1,
                x0 <= x,
                x <= x1 || x1 < x0,
                forall|px: int, py: int|
                    before.in_bounds(px, py) ==> if (py < y || (py == y && px < x))
                        && bounds.contains(px, py) && input@.in_bounds(px, py) {
                        transferred(
                            arithmetic,
                            functions@,
                            input@.pixel_at(px, py),
                            #[trigger] output@.pixel_at(px, py),
                        )
                    } else {
                        output@.pixel_at(px, py) == before.pixel_at(px, py)
                    },
            decreases x1 - x,
        {
            let pixel = input.get_pixel(x, y);
            let output_pixel = transfer_pixel(functions, pixel, arithmetic);
            output.set_pixel(output_pixel, x, y);
            x += 1;
        }
        y += 1;
    }
}

impl Default for FeComponentTransfer {
    /// A primitive that declares nothing: it reads the source graphic, its
    /// result has no name, and it has no subregion of its own.
    fn default() -> (primitive: FeComponentTransfer)
        ensures
            primitive.base.input is None,
            primitive.base.result is None,
            primitive.base.subregion is None,
    {
        FeComponentTransfer {
            base: PrimitiveWithInput { input: None, result: None, subregion: None },
        }
    }
}

fn copy_name(name: &Option<String>) -> (copy: Option<String>)
    ensures
        copy == *name,
{
    match name {
        Some(text) => Some(text.clone()),
        None => None,
    }
}

impl FeComponentTransfer {
    /// The name of the input that the primitive declares.
    pub open spec fn input_name(&self) -> Option<Seq<char>> {
        match self.base.input {
            Some(name) => Some(name@),
            None => None,
        }
    }

    /// The input that the primitive reads in a context.
    pub open spec fn input_in(&self, ctx: FilterContext) -> FilterInput {
        ctx.input(self.input_name())
    }

    /// The region in which the primitive computes in a context.
    pub open spec fn bounds_in(&self, ctx: FilterContext) -> Region {
        effective_bounds(
            self.base.subregion,
            ctx.input_bounds(self.input_in(ctx)),
            ctx.extent(),
        )
    }

    /// Whether a result is what the primitive renders in a context, with the
    /// functions that the children of its node resolve to.
    ///
    /// The result has the name that the primitive declares and the region in
    /// which it computes. Its image has the size of the canvas. Inside the
    /// region the pixels of the input are transferred; everywhere else the
    /// image is transparent.
    pub open spec fn renders<M: Arithmetic>(
        &self,
        node: Node,
        ctx: FilterContext,
        arithmetic: &M,
        result: FilterResult,
    ) -> bool {
        let input = self.input_in(ctx).spec_surface()@;
        let bounds = self.bounds_in(ctx);
        let image = result.output.surface@;
        &&& result.name == self.base.result
        &&& result.output.bounds == bounds
        &&& image.wf()
        &&& image.width == ctx.source()@.width
        &&& image.height == ctx.source()@.height
        &&& forall|x: int, y: int|
            image.in_bounds(x, y) ==> if bounds.contains(x, y) && input.in_bounds(x, y) {
                transferred(
                    arithmetic,
                    resolved_functions(node.children@),
                    input.pixel_at(x, y),
                    #[trigger] image.pixel_at(x, y),
                )
            } else {
                image.pixel_at(x, y) == transparent()
            }
    }

    /// Sets the attributes of the primitive in their order. Of an attribute
    /// that occurs twice the later value stands.
    pub fn set_attributes(&mut self, attributes: &Vec<PrimitiveAttribute>)
        ensures
            final(self).base == apply_primitive_attributes(old(self).base, attributes@),
    {
        let mut i: usize = 0;
        assert(attributes@.skip(0) == attributes@);
        while i < attributes.len()
            invariant
                i <= attributes@.len(),
                apply_primitive_attributes(old(self).base, attributes@)
                    == apply_primitive_attributes(self.base, attributes@.skip(i as int)),
            decreases attributes@.len() - i,
        {
            let ghost rest = attributes@.skip(i as int);
            assert(rest[0] == attributes@[i as int]);
            assert(rest.drop_first() == attributes@.skip(i + 1));
            match &attributes[i] {
                PrimitiveAttribute::In(name) => {
                    self.base.input = Some(name.clone());
                },
                PrimitiveAttribute::Result(name) => {
                    self.base.result = Some(name.clone());
                },
                PrimitiveAttribute::Subregion(region) => {
                    self.base.subregion = Some(*region);
                },
            }
            i += 1;
        }
    }

    /// Resolves the input of the primitive in a context.
    pub fn get_input(&self, ctx: &FilterContext) -> (input: FilterInput)
        ensures
            input == self.input_in(*ctx),
    {
        match &self.base.input {
            Some(name) => ctx.lookup(Some(name.as_str())),
            None => ctx.lookup(None),
        }
    }

    /// The region in which the primitive computes: the region of its input,
    /// widened to take in the subregion that the primitive declares, and cut
    /// down to the canvas.
    pub fn get_bounds(&self, ctx: &FilterContext, input: &FilterInput) -> (bounds: Region)
        ensures
            bounds == effective_bounds(
                self.base.subregion,
                ctx.input_bounds(*input),
                ctx.extent(),
            ),
    {
        let input_bounds = ctx.bounds_of(input);
        let merged = match self.base.subregion {
            Some(region) => input_bounds.union(region),
            None => input_bounds,
        };
        merged.intersection(ctx.canvas_extent())
    }

    /// Renders the primitive.
    ///
    /// The transfer functions are resolved from the children of `node`. Where
    /// a selected child failed its validation the primitive fails with
    /// `ChildNodeInError`, and no image is made. Otherwise an image of the
    /// size of the canvas is made, the pixels of the input inside the region
    /// of the primitive are transferred into it, and the image is frozen and
    /// handed back under the name that the primitive declares for its
    /// result.
    pub fn render<M: Arithmetic>(
        &self,
        node: &Node,
        ctx: &FilterContext,
        arithmetic: &M,
    ) -> (rendered: Result<FilterResult, FilterError>)
        ensures
            rendered is Err <==> any_selected_in_error(node.children@),
            rendered matches Err(error) ==> error == FilterError::ChildNodeInError,
            forall|channel: Channel|
                selected_in_error(node.children@, channel) ==> rendered matches Err(
                    FilterError::ChildNodeInError,
                ),
            rendered matches Ok(result) ==> self.renders(*node, *ctx, arithmetic, result),
    {
        let functions = match get_parameters(node) {
            Ok(functions) => functions,
            Err(error) => {
                return Err(error);
            },
        };

        let input = self.get_input(ctx);
        let bounds = self.get_bounds(ctx, &input);

        // Create the output surface.
        let mut surface = match ExclusiveImageBuffer::new(ctx.width(), ctx.height()) {
            Some(surface) => surface,
            None => unreached(),
        };

        // Do the actual processing.
        transfer_pixels(&functions, input.surface(), &mut surface, bounds, arithmetic);

        Ok(
            FilterResult {
                name: copy_name(&self.base.result),
                output: FilterOutput { surface: surface.share(), bounds },
            },
        )
    }

    /// Whether the primitive computes in the colour space that the
    /// `color-interpolation-filters` property selects. It does.
    pub fn is_affected_by_color_interpolation_filters(&self) -> (affected: bool)
        ensures
            affected,
    {
        true
    }
}

} // verus!

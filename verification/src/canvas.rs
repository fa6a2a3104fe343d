//! The frame coordinator: a canvas composing an output window, a device, a
//! resource factory and a renderer front-end, driven once per displayed
//! frame.
//!
//! The three collaborator contracts ([`Window`], [`Device`], [`Factory`])
//! are stated independently of any concrete backend; each carries spec-level
//! observers (a submission log, counters) through which [`Canvas::present`]
//! pins down the per-frame effects.

use vstd::prelude::*;

verus! {

/// A renderer front-end: accumulates drawing commands into a command buffer
/// that can be submitted as one batch and then reset for the next frame.
pub struct Renderer {
    commands: Vec<u64>,
}

impl View for Renderer {
    type V = Seq<u64>;

    /// The commands recorded since construction or the last reset, oldest
    /// first.
    closed spec fn view(&self) -> Seq<u64> {
        self.commands@
    }
}

impl Renderer {
    /// A fresh renderer, ready to record with no commands accumulated.
    pub fn new() -> (r: Renderer)
        ensures
            r@ == Seq::<u64>::empty(),
    {
        Renderer { commands: Vec::new() }
    }

    /// Appends one drawing command to the accumulated buffer.
    pub fn record(&mut self, command: u64)
        ensures
            final(self)@ == old(self)@.push(command),
    {
        self.commands.push(command);
    }

    /// The accumulated command buffer, ready for submission.
    pub fn as_buffer(&self) -> (r: &Vec<u64>)
        ensures
            r@ == self@,
    {
        &self.commands
    }

    /// Discards the accumulated commands, returning the renderer to the
    /// same ready-to-record state it had immediately after construction.
    pub fn reset(&mut self)
        ensures
            final(self)@ == Seq::<u64>::empty(),
    {
        self.commands.clear();
    }
}

/// Generic output window.
pub trait Window: Sized {
    /// How often the window's buffers have been swapped.  The body is a
    /// default so that unverified implementations need not restate it;
    /// an implementation that proves `swap_buffers` overrides it.
    open spec fn swaps(&self) -> nat {
        0
    }

    /// Swap front and back buffers.  This is the one point where a
    /// vertical-sync wait may stall.
    fn swap_buffers(&mut self)
        ensures
            final(self).swaps() == old(self).swaps() + 1,
    ;
}

/// A graphics device accepting command-buffer submissions and doing
/// frame-boundary bookkeeping.
pub trait Device: Sized {
    /// Every command buffer submitted so far, oldest first.  The body is
    /// a default so that unverified implementations need not restate it;
    /// an implementation that proves `submit` overrides it.
    open spec fn submitted(&self) -> Seq<Seq<u64>> {
        Seq::empty()
    }

    /// How many frame boundaries the device has acknowledged.  Defaulted
    /// for the same reason as `submitted`.
    open spec fn frames_ended(&self) -> nat {
        0
    }

    /// Submit a command buffer for execution.
    fn submit(&mut self, buffer: &Vec<u64>)
        ensures
            final(self).submitted() == old(self).submitted().push(buffer@),
            final(self).frames_ended() == old(self).frames_ended(),
    ;

    /// Perform bookkeeping gated on the completion of the frame, such as
    /// fence and resource recycling.
    fn after_frame(&mut self)
        ensures
            final(self).submitted() == old(self).submitted(),
            final(self).frames_ended() == old(self).frames_ended() + 1,
    ;
}

/// A resource factory: creates the renderer and reclaims frame-scoped
/// resources.
pub trait Factory: Sized {
    /// How often frame-scoped resources have been reclaimed.  The body is
    /// a default so that unverified implementations need not restate it;
    /// an implementation that proves `cleanup` overrides it.
    open spec fn cleanups(&self) -> nat {
        0
    }

    /// Create a renderer front-end, ready to record.
    fn create_renderer(&mut self) -> (r: Renderer)
        ensures
            r@ == Seq::<u64>::empty(),
            final(self).cleanups() == old(self).cleanups(),
    ;

    /// Reclaim resources whose lifetime was scoped to the completed frame.
    fn cleanup(&mut self)
        ensures
            final(self).cleanups() == old(self).cleanups() + 1,
    ;
}

/// A canvas with everything you need to draw on it.
pub struct Canvas<W, D, F> {
    /// Output window.
    pub output: W,
    /// Graphics device.
    pub device: D,
    /// Resource factory.
    pub factory: F,
    /// Renderer front-end, exclusively owned by the canvas.
    pub renderer: Renderer,
}

impl<W, D, F> Canvas<W, D, F> {
    /// Whether the canvas is ready to record the next frame: no commands
    /// left over from an earlier frame.  Construction establishes this and
    /// [`Canvas::present`] re-establishes it, so it holds between frames.
    pub open spec fn ready_to_record(&self) -> bool {
        self.renderer@ == Seq::<u64>::empty()
    }
}

/// Something that can be transformed into `Canvas`.
pub trait IntoCanvas<W, D, F>: Sized {
    /// Transform into `Canvas`: a pure assembly step that takes ownership
    /// of its parts and asks the factory to create exactly one renderer.
    fn into_canvas(self) -> (c: Canvas<W, D, F>)
        ensures
            c.ready_to_record(),
    ;
}

impl<W, D: Device, F: Factory> IntoCanvas<W, D, F> for (W, D, F) {
    /// Assembly moves the triple into the canvas unchanged; the single
    /// `create_renderer` call is the only factory effect (it preserves the
    /// cleanup count), and the window and device are untouched.
    fn into_canvas(self) -> (c: Canvas<W, D, F>)
        ensures
            c.output == self.0,
            c.device == self.1,
            c.factory.cleanups() == self.2.cleanups(),
    {
        let (output, device, mut factory) = self;
        let renderer = factory.create_renderer();
        Canvas { output, device, factory, renderer }
    }
}

impl<W, D, F> Canvas<W, D, F> {
    /// Returns the output window.
    pub fn get_output(&self) -> (r: &W)
        ensures
            r == &self.output,
    {
        &self.output
    }

    /// Mutable access to the renderer together with the output it is
    /// recording against, for upstream recording.
    pub fn access(&mut self) -> ((r, o): (&mut Renderer, &W))
        ensures
            *r == old(self).renderer,
            *o == old(self).output,
            final(self).renderer == *final(r),
            final(self).output == old(self).output,
            final(self).device == old(self).device,
            final(self).factory == old(self).factory,
    {
        (&mut self.renderer, &self.output)
    }
}

/// The effect of one presented frame on a canvas: exactly one new
/// submission holding exactly the commands recorded before the call, one
/// buffer swap, one acknowledged frame boundary, one cleanup, and a
/// renderer left ready to record.
pub open spec fn presents<W: Window, D: Device, F: Factory>(
    pre: Canvas<W, D, F>,
    post: Canvas<W, D, F>,
) -> bool {
    &&& post.device.submitted() == pre.device.submitted().push(pre.renderer@)
    &&& post.device.frames_ended() == pre.device.frames_ended() + 1
    &&& post.output.swaps() == pre.output.swaps() + 1
    &&& post.factory.cleanups() == pre.factory.cleanups() + 1
    &&& post.ready_to_record()
}

/// A law of the frame cycle: a frame's submission holds exactly what was
/// recorded since the previous frame, so nothing recorded before an
/// earlier present can reach a later frame's submission.
pub proof fn lemma_no_cross_frame_leak<W: Window, D: Device, F: Factory>(
    after_first: Canvas<W, D, F>,
    recorded: Seq<u64>,
    before_second: Canvas<W, D, F>,
    after_second: Canvas<W, D, F>,
)
    requires
        after_first.ready_to_record(),
        before_second.renderer@ == after_first.renderer@ + recorded,
        presents(before_second, after_second),
    ensures
        after_second.device.submitted().last() == recorded,
        after_second.ready_to_record(),
{
    assert(before_second.renderer@ =~= recorded);
}

impl<W: Window, D: Device, F: Factory> Canvas<W, D, F> {
    /// Show what we've been drawing all this time.
    ///
    /// Executes the frame cycle in its fixed order: submit the accumulated
    /// command buffer, swap the output's buffers, let the device acknowledge
    /// the frame boundary, let the factory reclaim frame-scoped resources,
    /// and reset the renderer.  Exactly one frame's worth of effect reaches
    /// each collaborator, as [`presents`] states.
    pub fn present(&mut self)
        ensures
            presents(*old(self), *final(self)),
    {
        self.device.submit(self.renderer.as_buffer());
        self.output.swap_buffers();
        self.device.after_frame();
        self.factory.cleanup();
        self.renderer.reset();
    }
}

} // verus!

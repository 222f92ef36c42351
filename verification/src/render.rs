//! The render-app state machine.
//!
//! `App` owns the GPU object handles and the per-frame state of the
//! harness, and sequences its lifecycle: `Created` → `GlLoaded` →
//! `Initialized` → `Running` → (`Closed` | `Failed`). The caller performs
//! the GPU and windowing calls and drives the machine with their results:
//! each transition function records what was produced and decides what
//! happens next.

use vstd::prelude::*;

verus! {

/// Lifecycle states of the render app.
#[derive(Clone, Copy, PartialEq, Eq, Structural, Debug)]
pub enum Phase {
    /// Constructed; the GPU function table is not bound yet.
    Created,
    /// The GPU function table is bound to the window's context.
    GlLoaded,
    /// Program, buffers and vertex array are set up and validated.
    Initialized,
    /// The frame loop is in progress.
    Running,
    /// The loop ended on a close request.
    Closed,
    /// Initialization or a frame step failed; the loop is over.
    Failed,
}

/// A cursor position in framebuffer coordinates with a bottom-left origin.
#[derive(Clone, Copy, PartialEq, Eq, Structural, Debug)]
pub struct Position {
    pub x: i64,
    pub y: i64,
}

/// An input event drained from the window's queue, reduced to the two kinds
/// this app reacts to.
#[derive(Clone, Copy, PartialEq, Eq, Structural, Debug)]
pub enum Event {
    /// The window was resized to the given width and height.
    Resize(i32, i32),
    /// The cursor moved to the given position, in top-left-origin window
    /// coordinates.
    CursorMove(i32, i32),
    /// Any other event kind; ignored.
    Other,
}

/// What the caller must do in response to a handled event.
#[derive(Clone, Copy, PartialEq, Eq, Structural, Debug)]
pub enum EventAction {
    /// Reset the viewport to the given width and height.
    SetViewport(i32, i32),
    /// Nothing to do.
    NoAction,
}

/// The uniform values pushed unconditionally on every frame.
#[derive(Clone, Copy, PartialEq, Eq, Structural, Debug)]
pub struct FrameUniforms {
    /// Current framebuffer width, recomputed every frame.
    pub resolution_x: i32,
    /// Current framebuffer height, recomputed every frame.
    pub resolution_y: i32,
    /// Last known cursor position, bottom-left origin.
    pub mouse_x: i64,
    /// Last known cursor position, bottom-left origin.
    pub mouse_y: i64,
    /// Elapsed time wrapped into one animation period, in milliseconds.
    pub time_ms: u64,
}

/// The animation period: the time uniform sweeps a full cycle every ten
/// seconds, so the wrapped phase repeats with this period.
pub const TIME_PERIOD_MS: u64 = 10000;

/// Elapsed time wrapped into `[0, TIME_PERIOD_MS)`.
pub open spec fn wrapped_time(elapsed_ms: int) -> int {
    elapsed_ms % (TIME_PERIOD_MS as int)
}

/// Wraps elapsed milliseconds into one animation period.
pub fn wrap_time_ms(elapsed_ms: u64) -> (wrapped: u64)
    ensures
        wrapped == wrapped_time(elapsed_ms as int),
        wrapped < TIME_PERIOD_MS,
{
    elapsed_ms % TIME_PERIOD_MS
}

/// The wrapped time is always inside one period and repeats exactly with
/// the period: adding a whole period to the elapsed time leaves the
/// animation phase unchanged.
pub proof fn lemma_time_wrap_periodic(elapsed_ms: int)
    requires
        elapsed_ms >= 0,
    ensures
        0 <= wrapped_time(elapsed_ms) < TIME_PERIOD_MS,
        wrapped_time(elapsed_ms + TIME_PERIOD_MS) == wrapped_time(elapsed_ms),
{
    let period = TIME_PERIOD_MS as int;
    vstd::arithmetic::div_mod::lemma_mod_add_multiples_vanish(elapsed_ms, period);
    vstd::arithmetic::div_mod::lemma_mod_bound(elapsed_ms, period);
}

/// The render-app state: GPU object handles, geometry counts, uniform
/// locations and the per-frame mouse state, together with the lifecycle
/// phase.
pub struct App {
    pub phase: Phase,
    pub vert_shader_name: u32,
    pub frag_shader_name: u32,
    pub program_name: u32,
    pub array_buffer_name: u32,
    pub element_buffer_name: u32,
    pub vertex_array_name: u32,
    pub vertex_count: i32,
    pub element_count: i32,
    pub u_time_location: i32,
    pub u_resolution: i32,
    pub u_mouse: i32,
    pub mouse_pos: Position,
}

/// The two apps hold the same GPU object handles.
pub open spec fn same_gl_objects(a: App, b: App) -> bool {
    &&& a.vert_shader_name == b.vert_shader_name
    &&& a.frag_shader_name == b.frag_shader_name
    &&& a.program_name == b.program_name
    &&& a.array_buffer_name == b.array_buffer_name
    &&& a.element_buffer_name == b.element_buffer_name
    &&& a.vertex_array_name == b.vertex_array_name
}

/// The two apps describe the same geometry.
pub open spec fn same_geometry(a: App, b: App) -> bool {
    &&& a.vertex_count == b.vertex_count
    &&& a.element_count == b.element_count
}

/// The two apps hold the same uniform locations.
pub open spec fn same_uniform_locations(a: App, b: App) -> bool {
    &&& a.u_time_location == b.u_time_location
    &&& a.u_resolution == b.u_resolution
    &&& a.u_mouse == b.u_mouse
}

/// The phase that initialization ends in for a given validation outcome.
pub open spec fn init_outcome(validated: bool) -> Phase {
    if validated {
        Phase::Initialized
    } else {
        Phase::Failed
    }
}

/// A failed initialization never yields a phase from which the frame loop
/// could start: the machine halts before `Running`.
pub proof fn lemma_failed_init_never_runs(validated: bool)
    ensures
        !validated ==> init_outcome(validated) == Phase::Failed,
        init_outcome(validated) != Phase::Running,
{
}

impl App {
    /// A freshly constructed app: nothing loaded, all handles and uniform
    /// locations zero, the fixed full-screen quad of four vertices and six
    /// indices, and the cursor at the origin.
    pub fn new() -> (app: App)
        ensures
            app.phase == Phase::Created,
            app.vert_shader_name == 0,
            app.frag_shader_name == 0,
            app.program_name == 0,
            app.array_buffer_name == 0,
            app.element_buffer_name == 0,
            app.vertex_array_name == 0,
            app.vertex_count == 4,
            app.element_count == 6,
            app.u_time_location == 0,
            app.u_resolution == 0,
            app.u_mouse == 0,
            app.mouse_pos == (Position { x: 0, y: 0 }),
    {
        App {
            phase: Phase::Created,
            vert_shader_name: 0,
            frag_shader_name: 0,
            program_name: 0,
            array_buffer_name: 0,
            element_buffer_name: 0,
            vertex_array_name: 0,
            vertex_count: 4,
            element_count: 6,
            u_time_location: 0,
            u_resolution: 0,
            u_mouse: 0,
            mouse_pos: Position { x: 0, y: 0 },
        }
    }

    /// One-time binding of the GPU function table: reports whether the
    /// caller must load it now. The guard is idempotent — once past
    /// `Created`, no further load is requested and nothing changes.
    pub fn init_gl(&mut self) -> (load_needed: bool)
        ensures
            load_needed <==> old(self).phase == Phase::Created,
            final(self).phase == (if old(self).phase == Phase::Created {
                Phase::GlLoaded
            } else {
                old(self).phase
            }),
            same_gl_objects(*final(self), *old(self)),
            same_geometry(*final(self), *old(self)),
            same_uniform_locations(*final(self), *old(self)),
            final(self).mouse_pos == old(self).mouse_pos,
    {
        if self.phase == Phase::Created {
            self.phase = Phase::GlLoaded;
            true
        } else {
            false
        }
    }

    /// Records the program produced by the program-initialization step: the
    /// two shader handles, the linked program handle, and the uniform
    /// locations resolved after linking. A location of `-1` means "not
    /// found" and is recorded as such, not treated as fatal.
    pub fn set_program(
        &mut self,
        vert_shader: u32,
        frag_shader: u32,
        program: u32,
        u_time_location: i32,
        u_resolution_location: i32,
        u_mouse_location: i32,
    )
        requires
            old(self).phase == Phase::GlLoaded,
        ensures
            final(self).phase == old(self).phase,
            final(self).vert_shader_name == vert_shader,
            final(self).frag_shader_name == frag_shader,
            final(self).program_name == program,
            final(self).u_time_location == u_time_location,
            final(self).u_resolution == u_resolution_location,
            final(self).u_mouse == u_mouse_location,
            final(self).array_buffer_name == old(self).array_buffer_name,
            final(self).element_buffer_name == old(self).element_buffer_name,
            final(self).vertex_array_name == old(self).vertex_array_name,
            same_geometry(*final(self), *old(self)),
            final(self).mouse_pos == old(self).mouse_pos,
    {
        self.vert_shader_name = vert_shader;
        self.frag_shader_name = frag_shader;
        self.program_name = program;
        self.u_time_location = u_time_location;
        self.u_resolution = u_resolution_location;
        self.u_mouse = u_mouse_location;
    }

    /// Records the buffer handles produced by the buffer-initialization
    /// step.
    pub fn set_buffers(&mut self, array_buffer: u32, element_buffer: u32)
        requires
            old(self).phase == Phase::GlLoaded,
        ensures
            final(self).phase == old(self).phase,
            final(self).array_buffer_name == array_buffer,
            final(self).element_buffer_name == element_buffer,
            final(self).vert_shader_name == old(self).vert_shader_name,
            final(self).frag_shader_name == old(self).frag_shader_name,
            final(self).program_name == old(self).program_name,
            final(self).vertex_array_name == old(self).vertex_array_name,
            same_geometry(*final(self), *old(self)),
            same_uniform_locations(*final(self), *old(self)),
            final(self).mouse_pos == old(self).mouse_pos,
    {
        self.array_buffer_name = array_buffer;
        self.element_buffer_name = element_buffer;
    }

    /// Records the vertex-array handle produced by the vertex-array
    /// initialization step.
    pub fn set_vertex_array(&mut self, vertex_array: u32)
        requires
            old(self).phase == Phase::GlLoaded,
        ensures
            final(self).phase == old(self).phase,
            final(self).vertex_array_name == vertex_array,
            final(self).vert_shader_name == old(self).vert_shader_name,
            final(self).frag_shader_name == old(self).frag_shader_name,
            final(self).program_name == old(self).program_name,
            final(self).array_buffer_name == old(self).array_buffer_name,
            final(self).element_buffer_name == old(self).element_buffer_name,
            same_geometry(*final(self), *old(self)),
            same_uniform_locations(*final(self), *old(self)),
            final(self).mouse_pos == old(self).mouse_pos,
    {
        self.vertex_array_name = vertex_array;
    }

    /// Ends the initialization sequence with its aggregate validation
    /// outcome: the app becomes `Initialized` exactly when every step
    /// (program, buffers, vertex array, and the error polls after each)
    /// succeeded, and `Failed` otherwise.
    pub fn complete_init(&mut self, validated: bool)
        requires
            old(self).phase == Phase::GlLoaded,
        ensures
            final(self).phase == init_outcome(validated),
            same_gl_objects(*final(self), *old(self)),
            same_geometry(*final(self), *old(self)),
            same_uniform_locations(*final(self), *old(self)),
            final(self).mouse_pos == old(self).mouse_pos,
    {
        if validated {
            self.phase = Phase::Initialized;
        } else {
            self.phase = Phase::Failed;
        }
    }

    /// Tries to enter the frame loop: succeeds exactly when initialization
    /// completed, so a failed initialization never starts the loop.
    pub fn start(&mut self) -> (started: bool)
        ensures
            started <==> old(self).phase == Phase::Initialized,
            final(self).phase == (if old(self).phase == Phase::Initialized {
                Phase::Running
            } else {
                old(self).phase
            }),
            same_gl_objects(*final(self), *old(self)),
            same_geometry(*final(self), *old(self)),
            same_uniform_locations(*final(self), *old(self)),
            final(self).mouse_pos == old(self).mouse_pos,
    {
        if self.phase == Phase::Initialized {
            self.phase = Phase::Running;
            true
        } else {
            false
        }
    }

    /// Applies one drained input event. A resize asks the caller to reset
    /// the viewport; a cursor move stores the position in framebuffer
    /// coordinates with the Y axis flipped to a bottom-left origin, using
    /// the current framebuffer height; anything else is ignored.
    pub fn handle_event(&mut self, event: Event, framebuffer_height: i32) -> (action: EventAction)
        ensures
            final(self).phase == old(self).phase,
            same_gl_objects(*final(self), *old(self)),
            same_geometry(*final(self), *old(self)),
            same_uniform_locations(*final(self), *old(self)),
            match event {
                Event::Resize(w, h) => {
                    &&& action == EventAction::SetViewport(w, h)
                    &&& final(self).mouse_pos == old(self).mouse_pos
                },
                Event::CursorMove(x, y) => {
                    &&& action == EventAction::NoAction
                    &&& final(self).mouse_pos.x == x as i64
                    &&& final(self).mouse_pos.y == framebuffer_height as i64 - y as i64
                },
                Event::Other => {
                    &&& action == EventAction::NoAction
                    &&& final(self).mouse_pos == old(self).mouse_pos
                },
            },
    {
        match event {
            Event::Resize(width, height) => EventAction::SetViewport(width, height),
            Event::CursorMove(x, y) => {
                self.mouse_pos.x = x as i64;
                self.mouse_pos.y = framebuffer_height as i64 - y as i64;
                EventAction::NoAction
            },
            Event::Other => EventAction::NoAction,
        }
    }

    /// The uniform values for the coming frame: the resolution is the
    /// framebuffer size measured this frame (never cached, so live resizes
    /// are picked up), the mouse is the last stored position, and the time
    /// is the elapsed time wrapped into one animation period. All three are
    /// pushed every frame whether or not they changed.
    pub fn frame_uniforms(&self, width: i32, height: i32, elapsed_ms: u64) -> (uniforms:
        FrameUniforms)
        ensures
            uniforms.resolution_x == width,
            uniforms.resolution_y == height,
            uniforms.mouse_x == self.mouse_pos.x,
            uniforms.mouse_y == self.mouse_pos.y,
            uniforms.time_ms == wrapped_time(elapsed_ms as int),
            uniforms.time_ms < TIME_PERIOD_MS,
    {
        FrameUniforms {
            resolution_x: width,
            resolution_y: height,
            mouse_x: self.mouse_pos.x,
            mouse_y: self.mouse_pos.y,
            time_ms: wrap_time_ms(elapsed_ms),
        }
    }

    /// Ends one frame-loop iteration: a close request ends the loop in
    /// `Closed`; otherwise a failed render or error poll ends it in
    /// `Failed`; otherwise the loop continues in `Running`.
    pub fn after_frame(&mut self, render_ok: bool, close_requested: bool) -> (continue_running:
        bool)
        requires
            old(self).phase == Phase::Running,
        ensures
            close_requested ==> final(self).phase == Phase::Closed && !continue_running,
            !close_requested && !render_ok ==> final(self).phase == Phase::Failed
                && !continue_running,
            !close_requested && render_ok ==> final(self).phase == Phase::Running
                && continue_running,
            same_gl_objects(*final(self), *old(self)),
            same_geometry(*final(self), *old(self)),
            same_uniform_locations(*final(self), *old(self)),
            final(self).mouse_pos == old(self).mouse_pos,
    {
        if close_requested {
            self.phase = Phase::Closed;
            false
        } else if !render_ok {
            self.phase = Phase::Failed;
            false
        } else {
            true
        }
    }

    /// The index data of the fixed full-screen quad: two triangles over
    /// four vertices, six indices in all.
    pub fn quad_element_data(&self) -> (elements: Vec<u32>)
        ensures
            elements@ == seq![0u32, 1u32, 2u32, 0u32, 2u32, 3u32],
    {
        let mut elements: Vec<u32> = Vec::new();
        elements.push(0);
        elements.push(1);
        elements.push(2);
        elements.push(0);
        elements.push(2);
        elements.push(3);
        proof {
            assert(elements@ =~= seq![0u32, 1u32, 2u32, 0u32, 2u32, 3u32]);
        }
        elements
    }

    /// The byte size of the vertex buffer to allocate: each of the quad's
    /// vertices is a pair of four-byte coordinates.
    pub fn array_buffer_size(&self) -> (size: u64)
        requires
            self.vertex_count >= 0,
        ensures
            size == self.vertex_count * 8,
    {
        self.vertex_count as u64 * 8
    }

    /// The byte size of the index buffer to allocate: each of the quad's
    /// indices is a four-byte integer.
    pub fn element_buffer_size(&self) -> (size: u64)
        requires
            self.element_count >= 0,
        ensures
            size == self.element_count * 4,
    {
        self.element_count as u64 * 4
    }
}

} // verus!

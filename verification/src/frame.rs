//! The frame driver: what the renderer does from its start to its end.
//!
//! The driver sets the device up for one quad, then runs frame by frame: it
//! takes the input events that are pending, answers each by calls to the
//! device, draws, and presents. The caller owns the window: it polls the
//! events and issues the calls.

use crate::buffer::{clear_color, polygon_mode, VertexArray, VertexBuffer};
use crate::device::{issue, Call, DeviceCall, DeviceReply, Reply};
use crate::geometry::{create_ebo, create_vbo, update_single_vbo};
use crate::geometry::{ebo_calls, image, patch_calls, vbo_calls};
use crate::geometry::{lemma_image_len, lemma_patch_replaces_vertex};
use crate::geometry::{ByteOrder, TriIndexes, Vertex, VERTEX_SIZE};
use crate::gl::{gl_color_buffer_bit, gl_triangles, gl_unsigned_int, PolygonMode};
use crate::gl::{COLOR_BUFFER_BIT, FILL, FRONT_AND_BACK, LINE, POINT, TRIANGLES, UNSIGNED_INT};
use crate::program::{program_start, program_step};
use crate::program::{ProgramBuild, ProgramBuildModel, ProgramPhase, ShaderProgram};
use crate::shader::source_fits;
use crate::state::{lemma_after_all_concat, patched, DeviceState};
use vstd::prelude::*;

verus! {

/// The float 0.0 as bits.
pub const ZERO: u32 = 0;

/// The float 0.5 as bits.
pub const HALF: u32 = 0x3F00_0000;

/// The float -0.5 as bits.
pub const MINUS_HALF: u32 = 0xBF00_0000;

/// The float 1.0 as bits.
pub const ONE: u32 = 0x3F80_0000;

/// The float 0.2 as bits: the red of the background.
pub const BACKGROUND_RED: u32 = 0x3E4C_CCCD;

/// The float 0.3 as bits: the green and the blue of the background.
pub const BACKGROUND_GREEN_BLUE: u32 = 0x3E99_999A;

/// The index of the vertex that the toggle key moves.
pub const TOGGLED_VERTEX: usize = 2;

/// A key of the keyboard, as far as the driver tells keys apart.
#[derive(Debug, Clone, Copy, PartialEq, Eq, Structural)]
pub enum Key {
    /// Moves one corner of the quad.
    Space,
    /// Draws outlines.
    L,
    /// Draws filled polygons.
    F,
    /// Draws corner points.
    P,
    /// Ends the run.
    Escape,
    /// Any other key.
    Other,
}

/// An input event, as far as the driver tells events apart.
#[derive(Debug, Clone, Copy, PartialEq, Eq, Structural)]
pub enum InputEvent {
    /// The user asked to quit.
    Quit,
    /// A key went down (`is_pressed`) or up.
    Keyboard { is_pressed: bool, key: Key },
    /// Any other event.
    Other,
}

/// Where the driver stands.
#[derive(Debug, Clone, Copy, PartialEq, Eq, Structural)]
pub enum FramePhase {
    /// The device is being set up.
    Initializing,
    /// Frames are drawn and events answered.
    Running,
    /// The run is over by the user's wish.
    ShuttingDown,
    /// The device could not be set up; the run never began.
    Failed,
}

/// What the driver is waiting for while it sets the device up.
#[derive(Debug, Clone, Copy, PartialEq, Eq, Structural)]
pub enum InitStage {
    /// The shader program is being made.
    Program,
    /// The vertex array was asked for.
    VertexArray,
    /// The vertex buffer was asked for.
    VertexBuffer,
    /// The index buffer was asked for.
    ElementBuffer,
}

/// The four corners of the quad.
pub open spec fn quad_vertices() -> Seq<Vertex> {
    seq![[HALF, HALF, ZERO], [HALF, MINUS_HALF, ZERO], [MINUS_HALF, MINUS_HALF, ZERO], [
        MINUS_HALF,
        HALF,
        ZERO,
    ]]
}

/// The two triangles of the quad.
pub open spec fn quad_indices() -> Seq<TriIndexes> {
    seq![[0u32, 1u32, 3u32], [1u32, 2u32, 3u32]]
}

/// Where a press of the toggle key puts the toggled vertex: at (1.0, 0.5, 0)
/// by a press after an even number of presses, at (0.0, 0.5, 0) by a press
/// after an odd number. These are the values of (0.5 - k / 2, 0.5, 0) for a
/// `k` that starts at -1 and changes its sign with every press.
pub open spec fn toggle_position(toggled: bool) -> Vertex {
    if toggled {
        [ZERO, HALF, ZERO]
    } else {
        [ONE, HALF, ZERO]
    }
}

/// The driver, as a mathematical value.
pub struct FrameModel {
    pub phase: FramePhase,
    /// What is waited for while the phase is `Initializing`.
    pub stage: InitStage,
    /// The making of the shader program.
    pub build: ProgramBuildModel,
    /// The vertex array; zero until it is made.
    pub vao: u32,
    /// The vertex buffer; zero until it is made.
    pub vbo: u32,
    /// The index buffer; zero until it is made.
    pub ebo: u32,
    /// The vertices as the device holds them.
    pub vertices: Seq<Vertex>,
    /// The triangles as the device holds them.
    pub indices: Seq<TriIndexes>,
    /// Whether the toggle key was pressed an odd number of times.
    pub toggled: bool,
    /// Why the setup failed; empty unless it has.
    pub message: Seq<char>,
}

impl FrameModel {
    /// The driver draws the quad: four vertices, two triangles.
    pub open spec fn wf(self) -> bool {
        self.vertices.len() == 4 && self.indices.len() == 2
    }
}

/// The start of a run: the background colour is set and the making of the
/// shader program begins.
pub open spec fn frame_start(vert: Seq<char>, frag: Seq<char>) -> (FrameModel, Seq<Call>) {
    (
        FrameModel {
            phase: FramePhase::Initializing,
            stage: InitStage::Program,
            build: program_start(vert, frag).0,
            vao: 0,
            vbo: 0,
            ebo: 0,
            vertices: quad_vertices(),
            indices: quad_indices(),
            toggled: false,
            message: Seq::empty(),
        },
        seq![
            Call::ClearColor {
                red: BACKGROUND_RED,
                green: BACKGROUND_GREEN_BLUE,
                blue: BACKGROUND_GREEN_BLUE,
                alpha: ONE,
            },
        ] + program_start(vert, frag).1,
    )
}

/// What the setup goes on to when the device has answered, and the calls to
/// issue next; `order` is the byte order of the machine.
///
/// The program is made and activated, then the vertex array, the vertex
/// buffer with the layout of a vertex, and the index buffer are made, and the
/// polygons are set to be filled. With that the driver runs. An object that
/// the device cannot make ends the setup, and the run never begins. Outside
/// the setup no answer is waited for, and none changes anything.
pub open spec fn frame_step(order: ByteOrder, driver: FrameModel, reply: Reply) -> (
    FrameModel,
    Seq<Call>,
) {
    if driver.phase != FramePhase::Initializing {
        (driver, Seq::empty())
    } else {
        match driver.stage {
            InitStage::Program => {
                let (build, calls) = program_step(driver.build, reply);
                match build.phase {
                    ProgramPhase::Linked => (
                        FrameModel { stage: InitStage::VertexArray, build, ..driver },
                        calls + seq![
                            Call::UseProgram { program: build.program.handle },
                            Call::GenVertexArrays,
                        ],
                    ),
                    ProgramPhase::Failed => (
                        FrameModel {
                            phase: FramePhase::Failed,
                            build,
                            message: build.message,
                            ..driver
                        },
                        calls,
                    ),
                    _ => (FrameModel { build, ..driver }, calls),
                }
            },
            InitStage::VertexArray => if reply.handle() == 0 {
                (
                    FrameModel {
                        phase: FramePhase::Failed,
                        message: "Could not make Vertex Array Object"@,
                        ..driver
                    },
                    Seq::empty(),
                )
            } else {
                (
                    FrameModel { stage: InitStage::VertexBuffer, vao: reply.handle(), ..driver },
                    seq![Call::GenBuffers],
                )
            },
            InitStage::VertexBuffer => if reply.handle() == 0 {
                (
                    FrameModel {
                        phase: FramePhase::Failed,
                        message: "Could not make Vertex Buffer Object"@,
                        ..driver
                    },
                    Seq::empty(),
                )
            } else {
                (
                    FrameModel { stage: InitStage::ElementBuffer, vbo: reply.handle(), ..driver },
                    vbo_calls(order, driver.vao, reply.handle(), driver.vertices) + seq![
                        Call::GenBuffers,
                    ],
                )
            },
            InitStage::ElementBuffer => if reply.handle() == 0 {
                (
                    FrameModel {
                        phase: FramePhase::Failed,
                        message: "Could not make Element Buffer Object"@,
                        ..driver
                    },
                    Seq::empty(),
                )
            } else {
                (
                    FrameModel { phase: FramePhase::Running, ebo: reply.handle(), ..driver },
                    ebo_calls(order, driver.vao, reply.handle(), driver.indices) + seq![
                        Call::PolygonMode { face: FRONT_AND_BACK, mode: FILL },
                    ],
                )
            },
        }
    }
}

/// What an input event does to a driver, and the calls that answer it;
/// `order` is the byte order of the machine.
///
/// Only a running driver answers. A request to quit and a press of Escape
/// end the run. A press of Space moves the toggled vertex to the other of
/// its two positions and uploads that one vertex. A press of L, F or P sets
/// the polygons to be drawn as lines, filled, or as points. Every other
/// event, the release of a key among them, is passed over.
pub open spec fn frame_event(order: ByteOrder, driver: FrameModel, event: InputEvent) -> (
    FrameModel,
    Seq<Call>,
) {
    if driver.phase != FramePhase::Running {
        (driver, Seq::empty())
    } else {
        match event {
            InputEvent::Quit => (
                FrameModel { phase: FramePhase::ShuttingDown, ..driver },
                Seq::empty(),
            ),
            InputEvent::Keyboard { is_pressed: true, key: Key::Escape } => (
                FrameModel { phase: FramePhase::ShuttingDown, ..driver },
                Seq::empty(),
            ),
            InputEvent::Keyboard { is_pressed: true, key: Key::Space } => {
                let vert = toggle_position(driver.toggled);
                (
                    FrameModel {
                        vertices: driver.vertices.update(TOGGLED_VERTEX as int, vert),
                        toggled: !driver.toggled,
                        ..driver
                    },
                    patch_calls(order, driver.vao, driver.vbo, TOGGLED_VERTEX as int, seq![vert]),
                )
            },
            InputEvent::Keyboard { is_pressed: true, key: Key::L } => (
                driver,
                seq![Call::PolygonMode { face: FRONT_AND_BACK, mode: LINE }],
            ),
            InputEvent::Keyboard { is_pressed: true, key: Key::F } => (
                driver,
                seq![Call::PolygonMode { face: FRONT_AND_BACK, mode: FILL }],
            ),
            InputEvent::Keyboard { is_pressed: true, key: Key::P } => (
                driver,
                seq![Call::PolygonMode { face: FRONT_AND_BACK, mode: POINT }],
            ),
            _ => (driver, Seq::empty()),
        }
    }
}

/// The calls that draw one frame: the colour buffer is cleared, all the
/// triangles of the index buffer are drawn, and the frame is presented. A
/// driver that does not run draws nothing.
pub open spec fn frame_calls(driver: FrameModel) -> Seq<Call> {
    if driver.phase == FramePhase::Running {
        seq![
            Call::Clear { mask: COLOR_BUFFER_BIT },
            Call::DrawElements {
                mode: TRIANGLES,
                count: (driver.indices.len() * 3) as i32,
                kind: UNSIGNED_INT,
                start: 0,
            },
            Call::SwapWindow,
        ]
    } else {
        Seq::empty()
    }
}

/// The frame driver.
///
/// [`FrameDriver::start`] begins the setup. While the phase is
/// `Initializing` the caller issues the calls that it is given, in order, and
/// hands what the device reported to the last of them to
/// [`FrameDriver::step`]. While the phase is `Running` the caller hands each
/// pending input event to [`FrameDriver::on_event`] and issues the calls that
/// answer it, then issues the calls of [`FrameDriver::frame`].
#[derive(Debug, PartialEq, Eq)]
pub struct FrameDriver {
    phase: FramePhase,
    stage: InitStage,
    build: ProgramBuild,
    vao: VertexArray,
    vbo: VertexBuffer,
    ebo: VertexBuffer,
    vertices: Vec<Vertex>,
    indices: Vec<TriIndexes>,
    toggled: bool,
    message: String,
}

impl View for FrameDriver {
    type V = FrameModel;

    closed spec fn view(&self) -> FrameModel {
        FrameModel {
            phase: self.phase,
            stage: self.stage,
            build: self.build@,
            vao: self.vao.0,
            vbo: self.vbo.0,
            ebo: self.ebo.0,
            vertices: self.vertices@,
            indices: self.indices@,
            toggled: self.toggled,
            message: self.message@,
        }
    }
}

/// The four corners of the quad.
fn make_quad_vertices() -> (verts: Vec<Vertex>)
    ensures
        verts@ == quad_vertices(),
{
    let mut verts: Vec<Vertex> = Vec::new();
    verts.push([HALF, HALF, ZERO]);
    verts.push([HALF, MINUS_HALF, ZERO]);
    verts.push([MINUS_HALF, MINUS_HALF, ZERO]);
    verts.push([MINUS_HALF, HALF, ZERO]);
    verts
}

/// The two triangles of the quad.
fn make_quad_indices() -> (inds: Vec<TriIndexes>)
    ensures
        inds@ == quad_indices(),
{
    let mut inds: Vec<TriIndexes> = Vec::new();
    inds.push([0u32, 1u32, 3u32]);
    inds.push([1u32, 2u32, 3u32]);
    inds
}

impl FrameDriver {
    #[verifier::type_invariant]
    spec fn quad_held(self) -> bool {
        self.vertices@.len() == 4 && self.indices@.len() == 2
    }

    /// Begins a run that draws the quad with the program of the two sources.
    pub fn start(vert: &str, frag: &str) -> (started: (FrameDriver, Vec<DeviceCall>))
        requires
            source_fits(vert@),
            source_fits(frag@),
        ensures
            started.0@ == frame_start(vert@, frag@).0,
            started.1.deep_view() == frame_start(vert@, frag@).1,
            started.0@.wf(),
    {
        let (build, first) = ShaderProgram::from_vert_frag(vert, frag);
        let driver = FrameDriver {
            phase: FramePhase::Initializing,
            stage: InitStage::Program,
            build,
            vao: VertexArray(0),
            vbo: VertexBuffer(0),
            ebo: VertexBuffer(0),
            vertices: make_quad_vertices(),
            indices: make_quad_indices(),
            toggled: false,
            message: String::new(),
        };
        let mut calls = vec![clear_color(BACKGROUND_RED, BACKGROUND_GREEN_BLUE, BACKGROUND_GREEN_BLUE, ONE)];
        let mut first = first;
        calls.append(&mut first);
        (driver, calls)
    }

    /// Where the driver stands.
    pub fn phase(&self) -> (phase: FramePhase)
        ensures
            phase == self@.phase,
    {
        self.phase
    }

    /// Why the setup failed; empty unless it has.
    pub fn message(&self) -> (message: &str)
        ensures
            message@ == self@.message,
    {
        self.message.as_str()
    }

    /// The shader program; it is linked once the setup has passed the
    /// `Program` stage.
    pub fn program(&self) -> (program: &ShaderProgram)
        ensures
            program@ == self@.build.program,
    {
        self.build.program()
    }

    /// The vertices as the device holds them.
    pub fn vertices(&self) -> (verts: &Vec<Vertex>)
        ensures
            verts@ == self@.vertices,
            self@.wf(),
    {
        proof {
            use_type_invariant(self);
        }
        &self.vertices
    }

    /// Takes what the device reported to the last call that was issued, and
    /// gives the calls to issue next.
    pub fn step(self, reply: &DeviceReply) -> (next: (FrameDriver, Vec<DeviceCall>))
        ensures
            exists|order: ByteOrder|
                (next.0@, next.1.deep_view()) == frame_step(order, self@, reply@),
            next.0@.wf(),
    {
        proof {
            use_type_invariant(&self);
        }
        let ghost before = self@;
        let FrameDriver { phase, stage, build, vao, vbo, ebo, vertices, indices, toggled, message } =
            self;
        match phase {
            FramePhase::Initializing => {
                match stage {
                    InitStage::Program => {
                        let (build, mut calls) = build.step(reply);
                        match build.phase() {
                            ProgramPhase::Linked => {
                                issue(&mut calls, build.program().use_program());
                                issue(&mut calls, DeviceCall::GenVertexArrays);
                                let next = FrameDriver {
                                    phase,
                                    stage: InitStage::VertexArray,
                                    build,
                                    vao,
                                    vbo,
                                    ebo,
                                    vertices,
                                    indices,
                                    toggled,
                                    message,
                                };
                                (next, calls)
                            },
                            ProgramPhase::Failed => {
                                let message = build.message().to_owned();
                                let next = FrameDriver {
                                    phase: FramePhase::Failed,
                                    stage,
                                    build,
                                    vao,
                                    vbo,
                                    ebo,
                                    vertices,
                                    indices,
                                    toggled,
                                    message,
                                };
                                (next, calls)
                            },
                            _ => {
                                let next = FrameDriver {
                                    phase,
                                    stage,
                                    build,
                                    vao,
                                    vbo,
                                    ebo,
                                    vertices,
                                    indices,
                                    toggled,
                                    message,
                                };
                                assert((next@, calls.deep_view()) == frame_step(
                                    ByteOrder::Little,
                                    before,
                                    reply@,
                                ));
                                (next, calls)
                            },
                        }
                    },
                    InitStage::VertexArray => {
                        match VertexArray::new(reply.handle()) {
                            None => {
                                let next = FrameDriver {
                                    phase: FramePhase::Failed,
                                    stage,
                                    build,
                                    vao,
                                    vbo,
                                    ebo,
                                    vertices,
                                    indices,
                                    toggled,
                                    message: "Could not make Vertex Array Object".to_owned(),
                                };
                                let calls: Vec<DeviceCall> = Vec::new();
                                (next, calls)
                            },
                            Some(vao) => {
                                let next = FrameDriver {
                                    phase,
                                    stage: InitStage::VertexBuffer,
                                    build,
                                    vao,
                                    vbo,
                                    ebo,
                                    vertices,
                                    indices,
                                    toggled,
                                    message,
                                };
                                let calls = vec![DeviceCall::GenBuffers];
                                (next, calls)
                            },
                        }
                    },
                    InitStage::VertexBuffer => {
                        match create_vbo(&vao, reply.handle(), &vertices) {
                            Err(message) => {
                                let next = FrameDriver {
                                    phase: FramePhase::Failed,
                                    stage,
                                    build,
                                    vao,
                                    vbo,
                                    ebo,
                                    vertices,
                                    indices,
                                    toggled,
                                    message,
                                };
                                let calls: Vec<DeviceCall> = Vec::new();
                                (next, calls)
                            },
                            Ok((vbo, mut calls)) => {
                                let ghost order = choose|order: ByteOrder|
                                    calls.deep_view() == vbo_calls(
                                        order,
                                        vao.0,
                                        reply@.handle(),
                                        vertices@,
                                    );
                                issue(&mut calls, DeviceCall::GenBuffers);
                                let next = FrameDriver {
                                    phase,
                                    stage: InitStage::ElementBuffer,
                                    build,
                                    vao,
                                    vbo,
                                    ebo,
                                    vertices,
                                    indices,
                                    toggled,
                                    message,
                                };
                                assert(calls.deep_view() =~= frame_step(order, before, reply@).1);
                                (next, calls)
                            },
                        }
                    },
                    InitStage::ElementBuffer => {
                        match create_ebo(&vao, reply.handle(), &indices) {
                            Err(message) => {
                                let next = FrameDriver {
                                    phase: FramePhase::Failed,
                                    stage,
                                    build,
                                    vao,
                                    vbo,
                                    ebo,
                                    vertices,
                                    indices,
                                    toggled,
                                    message,
                                };
                                let calls: Vec<DeviceCall> = Vec::new();
                                (next, calls)
                            },
                            Ok((ebo, mut calls)) => {
                                let ghost order = choose|order: ByteOrder|
                                    calls.deep_view() == ebo_calls(
                                        order,
                                        vao.0,
                                        reply@.handle(),
                                        indices@,
                                    );
                                issue(&mut calls, polygon_mode(PolygonMode::Fill));
                                let next = FrameDriver {
                                    phase: FramePhase::Running,
                                    stage,
                                    build,
                                    vao,
                                    vbo,
                                    ebo,
                                    vertices,
                                    indices,
                                    toggled,
                                    message,
                                };
                                assert(calls.deep_view() =~= frame_step(order, before, reply@).1);
                                (next, calls)
                            },
                        }
                    },
                }
            },
            _ => {
                let next = FrameDriver {
                    phase,
                    stage,
                    build,
                    vao,
                    vbo,
                    ebo,
                    vertices,
                    indices,
                    toggled,
                    message,
                };
                let calls: Vec<DeviceCall> = Vec::new();
                (next, calls)
            },
        }
    }

    /// Takes one input event, and gives the calls that answer it.
    pub fn on_event(self, event: InputEvent) -> (next: (FrameDriver, Vec<DeviceCall>))
        ensures
            exists|order: ByteOrder|
                (next.0@, next.1.deep_view()) == frame_event(order, self@, event),
            next.0@.wf(),
    {
        proof {
            use_type_invariant(&self);
        }
        let ghost before = self@;
        let FrameDriver {
            phase,
            stage,
            build,
            vao,
            vbo,
            ebo,
            mut vertices,
            indices,
            mut toggled,
            message,
        } = self;
        let mut phase = phase;
        let mut calls: Vec<DeviceCall> = Vec::new();
        let ghost mut order = ByteOrder::Little;
        match phase {
            FramePhase::Running => {
                match event {
                    InputEvent::Quit => {
                        phase = FramePhase::ShuttingDown;
                    },
                    InputEvent::Keyboard { is_pressed, key } => {
                        if is_pressed {
                            match key {
                                Key::Escape => {
                                    phase = FramePhase::ShuttingDown;
                                },
                                Key::Space => {
                                    let vert: Vertex = if toggled {
                                        [ZERO, HALF, ZERO]
                                    } else {
                                        [ONE, HALF, ZERO]
                                    };
                                    vertices.set(TOGGLED_VERTEX, vert);
                                    toggled = !toggled;
                                    let (_, upload) = update_single_vbo(
                                        TOGGLED_VERTEX,
                                        &vao,
                                        vbo,
                                        vert,
                                    );
                                    proof {
                                        order = choose|order: ByteOrder|
                                            upload.deep_view() == patch_calls(
                                                order,
                                                vao.0,
                                                vbo.0,
                                                TOGGLED_VERTEX as int,
                                                seq![vert],
                                            );
                                    }
                                    calls = upload;
                                },
                                Key::L => {
                                    calls = vec![polygon_mode(PolygonMode::Line)];
                                },
                                Key::F => {
                                    calls = vec![polygon_mode(PolygonMode::Fill)];
                                },
                                Key::P => {
                                    calls = vec![polygon_mode(PolygonMode::Point)];
                                },
                                Key::Other => {},
                            }
                        }
                    },
                    InputEvent::Other => {},
                }
            },
            _ => {},
        }
        let next = FrameDriver {
            phase,
            stage,
            build,
            vao,
            vbo,
            ebo,
            vertices,
            indices,
            toggled,
            message,
        };
        assert((next@, calls.deep_view()) == frame_event(order, before, event));
        (next, calls)
    }

    /// The calls that draw and present one frame.
    pub fn frame(&self) -> (calls: Vec<DeviceCall>)
        ensures
            calls.deep_view() == frame_calls(self@),
    {
        proof {
            use_type_invariant(self);
        }
        match self.phase {
            FramePhase::Running => {
                let count: usize = self.indices.len() * 3;
                let calls = vec![
                    DeviceCall::Clear { mask: gl_color_buffer_bit() },
                    DeviceCall::DrawElements {
                        mode: gl_triangles(),
                        count: count as i32,
                        kind: gl_unsigned_int(),
                        start: 0,
                    },
                    DeviceCall::SwapWindow,
                ];
                calls
            },
            _ => {
                let calls: Vec<DeviceCall> = Vec::new();
                calls
            },
        }
    }
}

/// The toggle key. On a running driver two presses of Space in a row put the
/// toggled vertex first at one of its two positions and then at the other,
/// and bring the driver back to where it alternates from. Each press uploads
/// that one vertex at its byte offset and nothing else; in a store that held
/// the image of the vertices before the press, the upload leaves the image of
/// the vertices after it, so that no other vertex changes.
pub proof fn lemma_toggle_alternates(order: ByteOrder, driver: FrameModel)
    requires
        driver.phase == FramePhase::Running,
        driver.wf(),
    ensures
        ({
            let press = InputEvent::Keyboard { is_pressed: true, key: Key::Space };
            let first = frame_event(order, driver, press);
            let second = frame_event(order, first.0, press);
            let once = toggle_position(driver.toggled);
            let twice = toggle_position(!driver.toggled);
            &&& once != twice
            &&& first.0.vertices == driver.vertices.update(TOGGLED_VERTEX as int, once)
            &&& second.0.vertices == driver.vertices.update(TOGGLED_VERTEX as int, twice)
            &&& second.0.toggled == driver.toggled
            &&& first.1 == patch_calls(
                order,
                driver.vao,
                driver.vbo,
                TOGGLED_VERTEX as int,
                seq![once],
            )
            &&& second.1 == patch_calls(
                order,
                driver.vao,
                driver.vbo,
                TOGGLED_VERTEX as int,
                seq![twice],
            )
            &&& patched(
                image(order, driver.vertices),
                TOGGLED_VERTEX * VERTEX_SIZE,
                image(order, seq![once]),
            ) == image(order, first.0.vertices)
            &&& patched(
                image(order, first.0.vertices),
                TOGGLED_VERTEX * VERTEX_SIZE,
                image(order, seq![twice]),
            ) == image(order, second.0.vertices)
        }),
{
    let press = InputEvent::Keyboard { is_pressed: true, key: Key::Space };
    let first = frame_event(order, driver, press);
    let second = frame_event(order, first.0, press);
    let once = toggle_position(driver.toggled);
    let twice = toggle_position(!driver.toggled);
    lemma_patch_replaces_vertex(order, driver.vertices, TOGGLED_VERTEX as int, once);
    lemma_patch_replaces_vertex(order, first.0.vertices, TOGGLED_VERTEX as int, twice);
}

/// The end of a run. A driver that is shutting down, or whose setup failed,
/// stays as it is whatever event or answer comes, and issues no call.
pub proof fn lemma_stopped_driver_is_silent(
    order: ByteOrder,
    driver: FrameModel,
    event: InputEvent,
    reply: Reply,
)
    requires
        driver.phase == FramePhase::ShuttingDown || driver.phase == FramePhase::Failed,
    ensures
        frame_event(order, driver, event) == (driver, Seq::<Call>::empty()),
        frame_step(order, driver, reply) == (driver, Seq::<Call>::empty()),
        frame_calls(driver) == Seq::<Call>::empty(),
{
}

/// Whether the device holds what a driver takes it to hold: the image of the
/// driver's vertices in the vertex buffer, and that of its triangles in the
/// index buffer.
pub open spec fn in_step(order: ByteOrder, driver: FrameModel, device: DeviceState) -> bool {
    &&& device.store(driver.vbo) == image(order, driver.vertices)
    &&& device.store(driver.ebo) == image(order, driver.indices)
}

/// The setup. From the point where the program is linked, on a device in any
/// state that gives three names of which the two buffers differ, the setup
/// ends in a running driver, and its calls leave a device that is in step
/// with the driver: the vertex array is active, both buffers are bound and
/// filled, and polygons are filled. The active program stays as it was set.
pub proof fn lemma_setup_fills_device(
    order: ByteOrder,
    driver: FrameModel,
    device: DeviceState,
    vao: u32,
    vbo: u32,
    ebo: u32,
)
    requires
        driver.phase == FramePhase::Initializing,
        driver.stage == InitStage::VertexArray,
        driver.wf(),
        vao != 0,
        vbo != 0,
        ebo != 0,
        vbo != ebo,
    ensures
        ({
            let s1 = frame_step(order, driver, Reply::Handle(vao));
            let s2 = frame_step(order, s1.0, Reply::Handle(vbo));
            let s3 = frame_step(order, s2.0, Reply::Handle(ebo));
            let end = device.after_all(s1.1).after_all(s2.1).after_all(s3.1);
            &&& s3.0.phase == FramePhase::Running
            &&& s3.0.vertices == driver.vertices
            &&& s3.0.indices == driver.indices
            &&& in_step(order, s3.0, end)
            &&& end.vertex_array == vao
            &&& end.array_buffer == vbo
            &&& end.element_buffer == ebo
            &&& end.polygon_mode == FILL
            &&& end.program == device.program
        }),
{
    let s1 = frame_step(order, driver, Reply::Handle(vao));
    let s2 = frame_step(order, s1.0, Reply::Handle(vbo));
    let s3 = frame_step(order, s2.0, Reply::Handle(ebo));
    let d1 = device.after_all(s1.1);
    let d2 = d1.after_all(s2.1);
    let d3 = d2.after_all(s3.1);
    assert(d1 == device) by {
        reveal_with_fuel(DeviceState::after_all, 2);
    }
    assert(d2.store(vbo) == image(order, driver.vertices) && d2.vertex_array == vao
        && d2.array_buffer == vbo && d2.program == device.program) by {
        reveal_with_fuel(DeviceState::after_all, 7);
    }
    assert(d3.store(ebo) == image(order, driver.indices) && d3.store(vbo) == d2.store(vbo)
        && d3.vertex_array == vao && d3.array_buffer == vbo && d3.element_buffer == ebo
        && d3.polygon_mode == FILL && d3.program == device.program) by {
        reveal_with_fuel(DeviceState::after_all, 5);
    }
}

/// The linked program is the one that draws. When the device reports that
/// the program has linked, the calls of that step leave it the active
/// program.
pub proof fn lemma_linked_program_is_active(
    order: ByteOrder,
    driver: FrameModel,
    device: DeviceState,
    reply: Reply,
)
    requires
        driver.phase == FramePhase::Initializing,
        driver.stage == InitStage::Program,
        frame_step(order, driver, reply).0.stage == InitStage::VertexArray,
    ensures
        ({
            let next = frame_step(order, driver, reply);
            &&& next.0.build.phase == ProgramPhase::Linked
            &&& device.after_all(next.1).program == next.0.build.program.handle
        }),
{
    let next = frame_step(order, driver, reply);
    let build = program_step(driver.build, reply);
    let last = seq![Call::UseProgram { program: build.0.program.handle }, Call::GenVertexArrays];
    lemma_after_all_concat(device, build.1, last);
    assert(device.after_all(build.1).after_all(last).program == build.0.program.handle) by {
        reveal_with_fuel(DeviceState::after_all, 3);
    }
}

/// Driver and device stay in step. On a running driver whose two buffers
/// differ, the calls that answer an event, and those that draw a frame, leave
/// a device that was in step with the driver in step with the driver as it
/// is after the event. So the vertex buffer holds the image of the driver's
/// vertices after every event, and a press of the toggle key changes in it
/// the bytes of the toggled vertex and no others.
pub proof fn lemma_events_keep_in_step(
    order: ByteOrder,
    driver: FrameModel,
    device: DeviceState,
    event: InputEvent,
)
    requires
        driver.phase == FramePhase::Running,
        driver.wf(),
        driver.vbo != 0,
        driver.vbo != driver.ebo,
        in_step(order, driver, device),
    ensures
        ({
            let next = frame_event(order, driver, event);
            &&& in_step(order, next.0, device.after_all(next.1))
            &&& in_step(order, driver, device.after_all(frame_calls(driver)))
            &&& device.after_all(next.1).program == device.program
            &&& device.after_all(frame_calls(driver)) == device
        }),
{
    let next = frame_event(order, driver, event);
    assert(device.after_all(frame_calls(driver)) == device) by {
        reveal_with_fuel(DeviceState::after_all, 4);
    }
    let press = InputEvent::Keyboard { is_pressed: true, key: Key::Space };
    if event == press {
        let vert = toggle_position(driver.toggled);
        lemma_image_len(order, driver.vertices);
        lemma_image_len(order, seq![vert]);
        lemma_patch_replaces_vertex(order, driver.vertices, TOGGLED_VERTEX as int, vert);
        let end = device.after_all(next.1);
        assert(end.store(driver.vbo) == patched(
            device.store(driver.vbo),
            TOGGLED_VERTEX * VERTEX_SIZE,
            image(order, seq![vert]),
        ) && end.store(driver.ebo) == device.store(driver.ebo) && end.program == device.program) by {
            reveal_with_fuel(DeviceState::after_all, 4);
        }
    } else {
        assert(in_step(order, next.0, device.after_all(next.1)) && device.after_all(next.1).program
            == device.program) by {
            reveal_with_fuel(DeviceState::after_all, 2);
        }
    }
}

} // verus!

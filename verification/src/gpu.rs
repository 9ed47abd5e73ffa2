//! GPU command port: GP0 queued commands decoded per-opcode into a length
//! and a handler, GP1 immediate control, and the status word.  Draw
//! dispatch goes to an external rasterizer: the port accumulates the
//! primitives and the host drains them.

use vstd::prelude::*;

use crate::command::CommandBuffer;
use crate::fault::Fault;
use crate::primitive::{gp0_x, gp0_y, Color, Position};

verus! {

#[derive(Clone, Copy, Debug, PartialEq, Eq, Structural)]
pub enum TextureDepth {
    T4Bit,
    T8Bit,
    T15Bit,
}

/// Encoding of `t` in bits 8:7 of the status word.
pub open spec fn texture_depth_bits(t: TextureDepth) -> u32 {
    match t {
        TextureDepth::T4Bit => 0,
        TextureDepth::T8Bit => 1,
        TextureDepth::T15Bit => 2,
    }
}

#[derive(Clone, Copy, Debug, PartialEq, Eq, Structural)]
pub enum Field {
    Top,
    Bottom,
}

/// Encoding of `f` in bit 13 of the status word.
pub open spec fn field_bit(f: Field) -> u32 {
    match f {
        Field::Top => 1,
        Field::Bottom => 0,
    }
}

/// The horizontal resolution fields hr2:hr1 packed for status bits 18:16.
#[derive(Clone, Copy, Debug, PartialEq, Eq, Structural)]
pub struct HorizontalRes(pub u8);

impl HorizontalRes {
    pub fn from_fields(hr1: u8, hr2: u8) -> (r: HorizontalRes)
        ensures
            r.0 == ((hr2 & 1) | ((hr1 & 3) << 1)),
    {
        let hr = (hr2 & 1) | ((hr1 & 3) << 1);
        HorizontalRes(hr)
    }

    pub fn into_status(self) -> (r: u32)
        ensures
            r == (self.0 as u32) << 16,
    {
        (self.0 as u32) << 16
    }
}

#[derive(Clone, Copy, Debug, PartialEq, Eq, Structural)]
pub enum VerticalRes {
    Y240Lines,
    Y480Lines,
}

#[derive(Clone, Copy, Debug, PartialEq, Eq, Structural)]
pub enum VMode {
    Ntsc,
    Pal,
}

/// Encoding of `v` in bit 20 of the status word.
pub open spec fn vmode_bit(v: VMode) -> u32 {
    match v {
        VMode::Ntsc => 0,
        VMode::Pal => 1,
    }
}

#[derive(Clone, Copy, Debug, PartialEq, Eq, Structural)]
pub enum DisplayDepth {
    D15Bits,
    D24Bits,
}

/// Encoding of `d` in bit 21 of the status word.
pub open spec fn display_depth_bit(d: DisplayDepth) -> u32 {
    match d {
        DisplayDepth::D15Bits => 0,
        DisplayDepth::D24Bits => 1,
    }
}

#[derive(Clone, Copy, Debug, PartialEq, Eq, Structural)]
pub enum DmaDirection {
    Off,
    Fifo,
    CpuToGp0,
    VramToCpu,
}

/// Encoding of `d` in bits 30:29 of the status word.
pub open spec fn dma_direction_bits(d: DmaDirection) -> u32 {
    match d {
        DmaDirection::Off => 0,
        DmaDirection::Fifo => 1,
        DmaDirection::CpuToGp0 => 2,
        DmaDirection::VramToCpu => 3,
    }
}

/// Whether the GP0 port is buffering command words or draining an image
/// upload.
#[derive(Clone, Copy, Debug, PartialEq, Eq, Structural)]
pub enum Gp0Mode {
    Command,
    ImageLoad,
}

/// The decoded GP0 handler.
#[derive(Clone, Copy, Debug, PartialEq, Eq, Structural)]
pub enum Gp0Opcode {
    Nop,
    ClearCache,
    QuadMonoOpaque,
    QuadTextureBlendOpaque,
    TriangleShadedOpaque,
    QuadShadedOpaque,
    ImageLoad,
    ImageStore,
    DrawMode,
    TextureWindow,
    DrawingAreaTopLeft,
    DrawingAreaBottomRight,
    DrawingOffset,
    MaskBitSetting,
}

/// A primitive or state change handed to the external rasterizer.
#[derive(Clone, Copy, Debug, PartialEq, Eq, Structural)]
pub enum DrawCommand {
    Triangle {
        p0: Position,
        p1: Position,
        p2: Position,
        c0: Color,
        c1: Color,
        c2: Color,
    },
    Quad {
        p0: Position,
        p1: Position,
        p2: Position,
        p3: Position,
        c0: Color,
        c1: Color,
        c2: Color,
        c3: Color,
    },
    DrawOffset { x: i16, y: i16 },
}

/// Length in words and handler for a GP0 opcode, or None for one the
/// decoder does not know.
#[verifier::opaque]
pub open spec fn gp0_decode(opcode: u32) -> Option<(u32, Gp0Opcode)> {
    if opcode == 0x00 {
        Some((1u32, Gp0Opcode::Nop))
    } else if opcode == 0x01 {
        Some((1u32, Gp0Opcode::ClearCache))
    } else if opcode == 0x28 {
        Some((5u32, Gp0Opcode::QuadMonoOpaque))
    } else if opcode == 0x2C {
        Some((9u32, Gp0Opcode::QuadTextureBlendOpaque))
    } else if opcode == 0x30 {
        Some((6u32, Gp0Opcode::TriangleShadedOpaque))
    } else if opcode == 0x38 {
        Some((8u32, Gp0Opcode::QuadShadedOpaque))
    } else if opcode == 0xA0 {
        Some((3u32, Gp0Opcode::ImageLoad))
    } else if opcode == 0xC0 {
        Some((3u32, Gp0Opcode::ImageStore))
    } else if opcode == 0xE1 {
        Some((1u32, Gp0Opcode::DrawMode))
    } else if opcode == 0xE2 {
        Some((1u32, Gp0Opcode::TextureWindow))
    } else if opcode == 0xE3 {
        Some((1u32, Gp0Opcode::DrawingAreaTopLeft))
    } else if opcode == 0xE4 {
        Some((1u32, Gp0Opcode::DrawingAreaBottomRight))
    } else if opcode == 0xE5 {
        Some((1u32, Gp0Opcode::DrawingOffset))
    } else if opcode == 0xE6 {
        Some((1u32, Gp0Opcode::MaskBitSetting))
    } else {
        None
    }
}

/// The monochrome opaque quad: four positions, one color for all
/// vertices.
pub open spec fn quad_mono_cmd(words: Seq<u32>) -> DrawCommand {
    let c = Color(words[0] as u8, (words[0] >> 8) as u8, (words[0] >> 16) as u8);
    DrawCommand::Quad {
        p0: Position(gp0_x(words[1]), gp0_y(words[1])),
        p1: Position(gp0_x(words[2]), gp0_y(words[2])),
        p2: Position(gp0_x(words[3]), gp0_y(words[3])),
        p3: Position(gp0_x(words[4]), gp0_y(words[4])),
        c0: c,
        c1: c,
        c2: c,
        c3: c,
    }
}

/// The texture-blend opaque quad; textures are not rasterized, so the
/// vertices carry a fixed blend color.
pub open spec fn quad_texture_blend_cmd(words: Seq<u32>) -> DrawCommand {
    let c = Color(0x80, 0x00, 0x00);
    DrawCommand::Quad {
        p0: Position(gp0_x(words[1]), gp0_y(words[1])),
        p1: Position(gp0_x(words[3]), gp0_y(words[3])),
        p2: Position(gp0_x(words[5]), gp0_y(words[5])),
        p3: Position(gp0_x(words[7]), gp0_y(words[7])),
        c0: c,
        c1: c,
        c2: c,
        c3: c,
    }
}

/// The shaded opaque triangle: three position/color pairs.
pub open spec fn triangle_shaded_cmd(words: Seq<u32>) -> DrawCommand {
    DrawCommand::Triangle {
        p0: Position(gp0_x(words[1]), gp0_y(words[1])),
        p1: Position(gp0_x(words[3]), gp0_y(words[3])),
        p2: Position(gp0_x(words[5]), gp0_y(words[5])),
        c0: Color(words[0] as u8, (words[0] >> 8) as u8, (words[0] >> 16) as u8),
        c1: Color(words[2] as u8, (words[2] >> 8) as u8, (words[2] >> 16) as u8),
        c2: Color(words[4] as u8, (words[4] >> 8) as u8, (words[4] >> 16) as u8),
    }
}

/// The shaded opaque quad: four position/color pairs.
pub open spec fn quad_shaded_cmd(words: Seq<u32>) -> DrawCommand {
    DrawCommand::Quad {
        p0: Position(gp0_x(words[1]), gp0_y(words[1])),
        p1: Position(gp0_x(words[3]), gp0_y(words[3])),
        p2: Position(gp0_x(words[5]), gp0_y(words[5])),
        p3: Position(gp0_x(words[7]), gp0_y(words[7])),
        c0: Color(words[0] as u8, (words[0] >> 8) as u8, (words[0] >> 16) as u8),
        c1: Color(words[2] as u8, (words[2] >> 8) as u8, (words[2] >> 16) as u8),
        c2: Color(words[4] as u8, (words[4] >> 8) as u8, (words[4] >> 16) as u8),
        c3: Color(words[6] as u8, (words[6] >> 8) as u8, (words[6] >> 16) as u8),
    }
}

/// A signed 11-bit drawing-offset field, sign-extended through a shift to
/// bit 15 and an arithmetic shift back.
pub open spec fn sign11(v: u16) -> i16 {
    (((v << 5) as i16) >> 5) as i16
}



/// Effect of GP1(0x00): every draw and display field reset, the default
/// display window re-armed, a zero drawing offset handed to the
/// rasterizer, and the command FIFO cleared.
#[verifier::opaque]
pub open spec fn gp1_reset_post(g: Gpu, n: Gpu) -> bool {
    &&& n.draw_commands@ == g.draw_commands@.push(DrawCommand::DrawOffset { x: 0, y: 0 })
    &&& n.gp0_command@.len() == 0
    &&& n == (Gpu {
        interrupt: false,
        page_base_x: 0,
        page_base_y: 0,
        semi_transparency: 0,
        texture_depth: TextureDepth::T4Bit,
        texture_window_x_mask: 0,
        texture_window_y_mask: 0,
        texture_window_x_offset: 0,
        texture_window_y_offset: 0,
        dithering: false,
        draw_to_display: false,
        texture_disable: false,
        rectangle_texture_x_flip: false,
        rectangle_texture_y_flip: false,
        drawing_area_left: 0,
        drawing_area_top: 0,
        drawing_area_right: 0,
        drawing_area_bottom: 0,
        force_set_mask_bit: false,
        preserve_masked_pixels: false,
        dma_direction: DmaDirection::Off,
        display_disabled: true,
        display_vram_x_start: 0,
        display_vram_y_start: 0,
        hres: HorizontalRes(0),
        vres: VerticalRes::Y240Lines,
        vmode: VMode::Ntsc,
        interlaced: true,
        display_horiz_start: 0x200,
        display_horiz_end: 0xC00,
        display_line_start: 0x10,
        display_line_end: 0x100,
        display_depth: DisplayDepth::D15Bits,
        draw_commands: n.draw_commands,
        gp0_command: n.gp0_command,
        gp0_words_remaining: 0,
        gp0_mode: Gp0Mode::Command,
        ..g
    })
}

/// Effect of GP1(0x01): the command FIFO cleared and the port idle.
#[verifier::opaque]
pub open spec fn gp1_clear_fifo_post(g: Gpu, n: Gpu) -> bool {
    &&& n == (Gpu {
        gp0_command: n.gp0_command,
        gp0_words_remaining: 0,
        gp0_mode: Gp0Mode::Command,
        ..g
    })
    &&& n.gp0_command@.len() == 0
}

/// Effect of GP1(0x02): the interrupt flag acknowledged.
#[verifier::opaque]
pub open spec fn gp1_ack_irq_post(g: Gpu, n: Gpu) -> bool {
    n == (Gpu { interrupt: false, ..g })
}

/// Effect of GP1(0x03): display enable from bit 0.
#[verifier::opaque]
pub open spec fn gp1_display_enable_post(g: Gpu, n: Gpu, val: u32) -> bool {
    n == (Gpu { display_disabled: val & 1 != 0, ..g })
}

/// Effect of GP1(0x04): DMA direction from bits 1:0.
#[verifier::opaque]
pub open spec fn gp1_dma_direction_post(g: Gpu, n: Gpu, val: u32) -> bool {
    n == (Gpu {
        dma_direction: if val & 3 == 0 {
            DmaDirection::Off
        } else if val & 3 == 1 {
            DmaDirection::Fifo
        } else if val & 3 == 2 {
            DmaDirection::CpuToGp0
        } else {
            DmaDirection::VramToCpu
        },
        ..g
    })
}

/// Effect of GP1(0x05): display VRAM start.
#[verifier::opaque]
pub open spec fn gp1_display_vram_start_post(g: Gpu, n: Gpu, val: u32) -> bool {
    n == (Gpu {
        display_vram_x_start: (val & 0x3FE) as u16,
        display_vram_y_start: ((val >> 10) & 0x1FF) as u16,
        ..g
    })
}

/// Effect of GP1(0x06): display horizontal range.
#[verifier::opaque]
pub open spec fn gp1_horiz_range_post(g: Gpu, n: Gpu, val: u32) -> bool {
    n == (Gpu {
        display_horiz_start: (val & 0xFFF) as u16,
        display_horiz_end: ((val >> 12) & 0xFFF) as u16,
        ..g
    })
}

/// Effect of GP1(0x07): display vertical range.
#[verifier::opaque]
pub open spec fn gp1_vert_range_post(g: Gpu, n: Gpu, val: u32) -> bool {
    n == (Gpu {
        display_line_start: (val & 0x3FF) as u16,
        display_line_end: ((val >> 10) & 0x3FF) as u16,
        ..g
    })
}

/// Effect of GP1(0x08): display mode decode.
#[verifier::opaque]
pub open spec fn gp1_display_mode_post(g: Gpu, n: Gpu, val: u32) -> bool {
    n == (Gpu {
        hres: HorizontalRes(((((val >> 6) & 1) as u8) & 1) | ((((val & 3) as u8) & 3) << 1)),
        vres: if val & 0x4 != 0 {
            VerticalRes::Y480Lines
        } else {
            VerticalRes::Y240Lines
        },
        vmode: if val & 0x8 != 0 {
            VMode::Pal
        } else {
            VMode::Ntsc
        },
        display_depth: if val & 0x10 != 0 {
            DisplayDepth::D15Bits
        } else {
            DisplayDepth::D24Bits
        },
        interlaced: val & 0x20 != 0,
        ..g
    })
}

/// How many words the image-load mode drains: halfword pairs of a width
/// by height halfword image, rounded up.
pub open spec fn image_words(res: u32) -> u32 {
    ((((res & 0xFFFF) * (res >> 16)) + 1) / 2) as u32
}


/// Whether this word completes a buffered command: the port is in
/// command mode and this is the last word the decoded length asks for.
pub open spec fn gp0_completing(pre: Gpu, val: u32) -> bool {
    pre.gp0_mode is Command && (pre.gp0_words_remaining == 1 || (pre.gp0_words_remaining == 0
        && gp0_decode((val >> 24) & 0xFF) is Some && (gp0_decode((val >> 24) & 0xFF)->0).0 == 1))
}

/// The handler that runs when this word completes a command.
pub open spec fn gp0_cmd_op(pre: Gpu, val: u32) -> Gp0Opcode {
    if pre.gp0_words_remaining == 0 {
        (gp0_decode((val >> 24) & 0xFF)->0).1
    } else {
        pre.gp0_op
    }
}

/// The words the completed command was buffered from.
pub open spec fn gp0_cmd_words(pre: Gpu, val: u32) -> Seq<u32> {
    if pre.gp0_words_remaining == 0 {
        seq![val]
    } else {
        pre.gp0_command@.push(val)
    }
}

/// Only the command-port bookkeeping changed: the buffer holds the
/// completed words, the counter is spent, the handler is latched, and
/// every other field of the port is untouched.
pub open spec fn gp0_spent(pre: Gpu, post: Gpu, ws: Seq<u32>, op: Gp0Opcode) -> bool {
    &&& post == (Gpu {
        gp0_command: post.gp0_command,
        gp0_words_remaining: 0,
        gp0_op: op,
        ..pre
    })
    &&& post.gp0_command@ == ws
}

/// The effect of the handler a completed command runs, per opcode, on
/// top of the spent bookkeeping: the draw commands pushed, the state
/// registers written, the switch into image-load mode, or the draw-mode
/// fault.
#[verifier::opaque]
pub open spec fn gp0_complete_post(
    pre: Gpu,
    post: Gpu,
    ws: Seq<u32>,
    op: Gp0Opcode,
    r: Result<(), Fault>,
) -> bool {
    match op {
        Gp0Opcode::Nop => r is Ok && gp0_spent(pre, post, ws, op),
        Gp0Opcode::ClearCache => r is Ok && gp0_spent(pre, post, ws, op),
        Gp0Opcode::ImageStore => r is Ok && gp0_spent(pre, post, ws, op),
        Gp0Opcode::QuadMonoOpaque => r is Ok && if ws.len() >= 5 {
            &&& post == (Gpu {
                draw_commands: post.draw_commands,
                gp0_command: post.gp0_command,
                gp0_words_remaining: 0,
                gp0_op: op,
                ..pre
            })
            &&& post.draw_commands@ == pre.draw_commands@.push(quad_mono_cmd(ws))
            &&& post.gp0_command@ == ws
        } else {
            gp0_spent(pre, post, ws, op)
        },
        Gp0Opcode::QuadTextureBlendOpaque => r is Ok && if ws.len() >= 8 {
            &&& post == (Gpu {
                draw_commands: post.draw_commands,
                gp0_command: post.gp0_command,
                gp0_words_remaining: 0,
                gp0_op: op,
                ..pre
            })
            &&& post.draw_commands@ == pre.draw_commands@.push(quad_texture_blend_cmd(ws))
            &&& post.gp0_command@ == ws
        } else {
            gp0_spent(pre, post, ws, op)
        },
        Gp0Opcode::TriangleShadedOpaque => r is Ok && if ws.len() >= 6 {
            &&& post == (Gpu {
                draw_commands: post.draw_commands,
                gp0_command: post.gp0_command,
                gp0_words_remaining: 0,
                gp0_op: op,
                ..pre
            })
            &&& post.draw_commands@ == pre.draw_commands@.push(triangle_shaded_cmd(ws))
            &&& post.gp0_command@ == ws
        } else {
            gp0_spent(pre, post, ws, op)
        },
        Gp0Opcode::QuadShadedOpaque => r is Ok && if ws.len() >= 8 {
            &&& post == (Gpu {
                draw_commands: post.draw_commands,
                gp0_command: post.gp0_command,
                gp0_words_remaining: 0,
                gp0_op: op,
                ..pre
            })
            &&& post.draw_commands@ == pre.draw_commands@.push(quad_shaded_cmd(ws))
            &&& post.gp0_command@ == ws
        } else {
            gp0_spent(pre, post, ws, op)
        },
        Gp0Opcode::ImageLoad => r is Ok && if ws.len() >= 3 {
            &&& post == (Gpu {
                gp0_command: post.gp0_command,
                gp0_words_remaining: image_words(ws[2]),
                gp0_mode: Gp0Mode::ImageLoad,
                gp0_op: op,
                ..pre
            })
            &&& post.gp0_command@ == ws
        } else {
            gp0_spent(pre, post, ws, op)
        },
        Gp0Opcode::DrawMode => if (ws[0] >> 7) & 3 == 3 {
            r == Err::<(), Fault>(Fault::UnhandledTextureDepth) && gp0_spent(pre, post, ws, op)
        } else {
            r is Ok && post == (Gpu {
                page_base_x: (ws[0] & 0xF) as u8,
                page_base_y: ((ws[0] >> 4) & 1) as u8,
                semi_transparency: ((ws[0] >> 5) & 3) as u8,
                texture_depth: if (ws[0] >> 7) & 3 == 0 {
                    TextureDepth::T4Bit
                } else if (ws[0] >> 7) & 3 == 1 {
                    TextureDepth::T8Bit
                } else {
                    TextureDepth::T15Bit
                },
                dithering: (ws[0] >> 9) & 1 != 0,
                draw_to_display: (ws[0] >> 10) & 1 != 0,
                texture_disable: (ws[0] >> 11) & 1 != 0,
                rectangle_texture_x_flip: (ws[0] >> 12) & 1 != 0,
                rectangle_texture_y_flip: (ws[0] >> 13) & 1 != 0,
                gp0_command: post.gp0_command,
                gp0_words_remaining: 0,
                gp0_op: op,
                ..pre
            }) && post.gp0_command@ == ws
        },
        Gp0Opcode::TextureWindow => r is Ok && post == (Gpu {
            texture_window_x_mask: (ws[0] & 0x1F) as u8,
            texture_window_y_mask: ((ws[0] >> 5) & 0x1F) as u8,
            texture_window_x_offset: ((ws[0] >> 10) & 0x1F) as u8,
            texture_window_y_offset: ((ws[0] >> 15) & 0x1F) as u8,
            gp0_command: post.gp0_command,
            gp0_words_remaining: 0,
            gp0_op: op,
            ..pre
        }) && post.gp0_command@ == ws,
        Gp0Opcode::DrawingAreaTopLeft => r is Ok && post == (Gpu {
            drawing_area_top: ((ws[0] >> 10) & 0x3FF) as u16,
            drawing_area_left: (ws[0] & 0x3FF) as u16,
            gp0_command: post.gp0_command,
            gp0_words_remaining: 0,
            gp0_op: op,
            ..pre
        }) && post.gp0_command@ == ws,
        Gp0Opcode::DrawingAreaBottomRight => r is Ok && post == (Gpu {
            drawing_area_bottom: ((ws[0] >> 10) & 0x3FF) as u16,
            drawing_area_right: (ws[0] & 0x3FF) as u16,
            gp0_command: post.gp0_command,
            gp0_words_remaining: 0,
            gp0_op: op,
            ..pre
        }) && post.gp0_command@ == ws,
        Gp0Opcode::DrawingOffset => r is Ok && post == (Gpu {
            draw_commands: post.draw_commands,
            gp0_command: post.gp0_command,
            gp0_words_remaining: 0,
            gp0_op: op,
            ..pre
        }) && post.draw_commands@ == pre.draw_commands@.push(
            DrawCommand::DrawOffset {
                x: sign11((ws[0] & 0x7FF) as u16),
                y: sign11(((ws[0] >> 11) & 0x7FF) as u16),
            },
        ) && post.gp0_command@ == ws,
        Gp0Opcode::MaskBitSetting => r is Ok && post == (Gpu {
            force_set_mask_bit: ws[0] & 1 != 0,
            preserve_masked_pixels: ws[0] & 2 != 0,
            gp0_command: post.gp0_command,
            gp0_words_remaining: 0,
            gp0_op: op,
            ..pre
        }) && post.gp0_command@ == ws,
    }
}

/// The spent bookkeeping composes: a handler effect stated against the
/// state holding the completed words is the same effect against the
/// state the word arrived in.
#[verifier::rlimit(100)]
#[verifier::spinoff_prover]
pub proof fn lemma_gp0_complete_shift(
    pre: Gpu,
    mid: Gpu,
    post: Gpu,
    ws: Seq<u32>,
    op: Gp0Opcode,
    r: Result<(), Fault>,
)
    requires
        mid == (Gpu { gp0_command: mid.gp0_command, gp0_words_remaining: 0, gp0_op: op, ..pre }),
        mid.gp0_command@ == ws,
        gp0_complete_post(mid, post, ws, op, r),
    ensures
        gp0_complete_post(pre, post, ws, op, r),
{
    reveal(gp0_complete_post);
}

/// The handler's own effect, relating the states just before and after
/// it runs (the buffer already holds the completed words).
#[verifier::opaque]
pub open spec fn gp0_handler_post(h0: Gpu, h1: Gpu, r: Result<(), Fault>) -> bool {
    gp0_complete_post(h0, h1, h0.gp0_command@, h0.gp0_op, r)
}

/// The full outcome of one GP0 word: the unknown-opcode fault, the
/// buffering steps, the image-load drain, and the handler run by a
/// completing word.
#[verifier::opaque]
pub open spec fn gp0_post(pre: Gpu, post: Gpu, val: u32, r: Result<(), Fault>) -> bool {
    &&& (pre.gp0_words_remaining == 0 && gp0_decode((val >> 24) & 0xFF) is None ==> r == Err::<
        (),
        Fault,
    >(Fault::UnknownGp0Opcode { value: val }) && post == pre)
    &&& (pre.gp0_mode is Command && pre.gp0_words_remaining == 0 && gp0_decode(
        (val >> 24) & 0xFF,
    ) is Some && (gp0_decode((val >> 24) & 0xFF)->0).0 > 1 ==> r is Ok && post == (Gpu {
        gp0_words_remaining: ((gp0_decode((val >> 24) & 0xFF)->0).0 - 1) as u32,
        gp0_op: (gp0_decode((val >> 24) & 0xFF)->0).1,
        gp0_command: post.gp0_command,
        ..pre
    }) && post.gp0_command@ =~= seq![val])
    &&& (pre.gp0_mode is Command && pre.gp0_words_remaining > 1 ==> r is Ok && post == (Gpu {
        gp0_words_remaining: (pre.gp0_words_remaining - 1) as u32,
        gp0_command: post.gp0_command,
        ..pre
    }) && post.gp0_command@ == pre.gp0_command@.push(val))
    &&& (pre.gp0_mode is ImageLoad && pre.gp0_words_remaining > 1 ==> r is Ok && post == (Gpu {
        gp0_words_remaining: (pre.gp0_words_remaining - 1) as u32,
        ..pre
    }))
    &&& (pre.gp0_mode is ImageLoad && pre.gp0_words_remaining == 1 ==> r is Ok && post == (Gpu {
        gp0_words_remaining: 0,
        gp0_mode: Gp0Mode::Command,
        ..pre
    }))
    &&& (gp0_completing(pre, val) ==> gp0_complete_post(
        pre,
        post,
        gp0_cmd_words(pre, val),
        gp0_cmd_op(pre, val),
        r,
    ))
}

/// The full outcome of one GP1 word, per control opcode.
pub open spec fn gp1_post(pre: Gpu, post: Gpu, val: u32, r: Result<(), Fault>) -> bool {
    &&& ((val >> 24) & 0xFF == 0x00 ==> r is Ok && gp1_reset_post(pre, post))
    &&& ((val >> 24) & 0xFF == 0x01 ==> r is Ok && gp1_clear_fifo_post(pre, post))
    &&& ((val >> 24) & 0xFF == 0x02 ==> r is Ok && gp1_ack_irq_post(pre, post))
    &&& ((val >> 24) & 0xFF == 0x03 ==> r is Ok && gp1_display_enable_post(pre, post, val))
    &&& ((val >> 24) & 0xFF == 0x04 ==> r is Ok && gp1_dma_direction_post(pre, post, val))
    &&& ((val >> 24) & 0xFF == 0x05 ==> r is Ok && gp1_display_vram_start_post(pre, post, val))
    &&& ((val >> 24) & 0xFF == 0x06 ==> r is Ok && gp1_horiz_range_post(pre, post, val))
    &&& ((val >> 24) & 0xFF == 0x07 ==> r is Ok && gp1_vert_range_post(pre, post, val))
    &&& ((val >> 24) & 0xFF == 0x08 ==> (val & 0x80 != 0 ==> r == Err::<(), Fault>(
        Fault::UnhandledDisplayMode { value: val },
    ) && post == pre) && (val & 0x80 == 0 ==> r is Ok && gp1_display_mode_post(pre, post, val)))
    &&& (!((val >> 24) & 0xFF <= 0x08) ==> r == Err::<(), Fault>(
        Fault::UnknownGp1Opcode { value: val },
    ) && post == pre)
}

pub struct Gpu {
    pub page_base_x: u8,
    pub page_base_y: u8,
    pub semi_transparency: u8,
    pub texture_depth: TextureDepth,
    pub dithering: bool,
    pub draw_to_display: bool,
    pub force_set_mask_bit: bool,
    pub preserve_masked_pixels: bool,
    pub field: Field,
    pub texture_disable: bool,
    pub hres: HorizontalRes,
    pub vres: VerticalRes,
    pub vmode: VMode,
    pub display_depth: DisplayDepth,
    pub interlaced: bool,
    pub display_disabled: bool,
    pub interrupt: bool,
    pub dma_direction: DmaDirection,
    pub rectangle_texture_x_flip: bool,
    pub rectangle_texture_y_flip: bool,
    pub texture_window_x_mask: u8,
    pub texture_window_y_mask: u8,
    pub texture_window_x_offset: u8,
    pub texture_window_y_offset: u8,
    pub drawing_area_left: u16,
    pub drawing_area_top: u16,
    pub drawing_area_right: u16,
    pub drawing_area_bottom: u16,
    pub display_vram_x_start: u16,
    pub display_vram_y_start: u16,
    pub display_horiz_start: u16,
    pub display_horiz_end: u16,
    pub display_line_start: u16,
    pub display_line_end: u16,
    pub gp0_mode: Gp0Mode,
    pub gp0_words_remaining: u32,
    pub gp0_op: Gp0Opcode,
    pub gp0_command: CommandBuffer,
    /// Primitives waiting for the external rasterizer to drain.
    pub draw_commands: Vec<DrawCommand>,
    /// Display-timing signals sampled by the timers and the interrupt
    /// aggregator.
    pub hblank: bool,
    pub vblank: bool,
    pub dotclock: bool,
}

/// The status word without the DMA-request bit.
pub open spec fn gpu_status_base(g: Gpu) -> u32 {
    (g.page_base_x as u32) | ((g.page_base_y as u32) << 4) | ((g.semi_transparency as u32) << 5)
        | (texture_depth_bits(g.texture_depth) << 7) | ((g.dithering as u32) << 9) | ((
    g.draw_to_display as u32) << 10) | ((g.force_set_mask_bit as u32) << 11) | ((
    g.preserve_masked_pixels as u32) << 12) | (field_bit(g.field) << 13) | ((g.texture_disable
        as u32) << 15) | ((g.hres.0 as u32) << 16) | (vmode_bit(g.vmode) << 20) | (
    display_depth_bit(g.display_depth) << 21) | ((g.interlaced as u32) << 22) | ((
    g.display_disabled as u32) << 23) | ((g.interlaced as u32) << 24) | (1u32 << 26) | (1u32
        << 27) | (1u32 << 28) | (dma_direction_bits(g.dma_direction) << 29)
}

/// The DMA-request bit computed from the direction and the ready bits of
/// the partial status word.
pub open spec fn gpu_dma_request(g: Gpu, base: u32) -> u32 {
    match g.dma_direction {
        DmaDirection::Off => 0,
        DmaDirection::Fifo => 1,
        DmaDirection::CpuToGp0 => (base >> 28) & 1,
        DmaDirection::VramToCpu => (base >> 27) & 1,
    }
}

/// The full status word.
pub open spec fn gpu_status(g: Gpu) -> u32 {
    gpu_status_base(g) | (gpu_dma_request(g, gpu_status_base(g)) << 25)
}

impl Gpu {
    pub open spec fn wf(&self) -> bool {
        &&& self.gp0_command.wf()
        &&& (self.gp0_mode is Command ==> self.gp0_command@.len() + self.gp0_words_remaining
            <= 12)
    }

    pub fn new() -> (r: Gpu)
        ensures
            r.wf(),
            r.draw_commands@.len() == 0,
            r.gp0_command@.len() == 0,
            r == (Gpu {
                page_base_x: 0,
                page_base_y: 0,
                semi_transparency: 0,
                texture_depth: TextureDepth::T4Bit,
                dithering: false,
                draw_to_display: false,
                force_set_mask_bit: false,
                preserve_masked_pixels: false,
                field: Field::Top,
                texture_disable: false,
                hres: HorizontalRes(0),
                vres: VerticalRes::Y240Lines,
                vmode: VMode::Ntsc,
                display_depth: DisplayDepth::D15Bits,
                interlaced: true,
                display_disabled: true,
                interrupt: false,
                dma_direction: DmaDirection::Off,
                rectangle_texture_x_flip: false,
                rectangle_texture_y_flip: false,
                texture_window_x_mask: 0,
                texture_window_y_mask: 0,
                texture_window_x_offset: 0,
                texture_window_y_offset: 0,
                drawing_area_left: 0,
                drawing_area_top: 0,
                drawing_area_right: 0,
                drawing_area_bottom: 0,
                display_vram_x_start: 0,
                display_vram_y_start: 0,
                display_horiz_start: 0,
                display_horiz_end: 0,
                display_line_start: 0,
                display_line_end: 0,
                gp0_mode: Gp0Mode::Command,
                gp0_words_remaining: 0,
                gp0_op: Gp0Opcode::Nop,
                gp0_command: r.gp0_command,
                draw_commands: r.draw_commands,
                hblank: false,
                vblank: false,
                dotclock: false,
            }),
    {
        Gpu {
            page_base_x: 0,
            page_base_y: 0,
            semi_transparency: 0,
            texture_depth: TextureDepth::T4Bit,
            dithering: false,
            draw_to_display: false,
            force_set_mask_bit: false,
            preserve_masked_pixels: false,
            field: Field::Top,
            texture_disable: false,
            hres: HorizontalRes(0),
            vres: VerticalRes::Y240Lines,
            vmode: VMode::Ntsc,
            display_depth: DisplayDepth::D15Bits,
            interlaced: true,
            display_disabled: true,
            interrupt: false,
            dma_direction: DmaDirection::Off,
            rectangle_texture_x_flip: false,
            rectangle_texture_y_flip: false,
            texture_window_x_mask: 0,
            texture_window_y_mask: 0,
            texture_window_x_offset: 0,
            texture_window_y_offset: 0,
            drawing_area_left: 0,
            drawing_area_top: 0,
            drawing_area_right: 0,
            drawing_area_bottom: 0,
            display_vram_x_start: 0,
            display_vram_y_start: 0,
            display_horiz_start: 0,
            display_horiz_end: 0,
            display_line_start: 0,
            display_line_end: 0,
            gp0_mode: Gp0Mode::Command,
            gp0_words_remaining: 0,
            gp0_op: Gp0Opcode::Nop,
            gp0_command: CommandBuffer::new(),
            draw_commands: Vec::new(),
            hblank: false,
            vblank: false,
            dotclock: false,
        }
    }

    /// One quantum of display timing.  Video timing generation is not
    /// modelled: the signals hold whatever the host set them to.
    pub fn tick(&mut self)
        ensures
            *final(self) == *old(self),
    {
    }

    /// The status word, as `gpu_status` states it.
    pub fn status(&self) -> (r: u32)
        ensures
            r == gpu_status(*self),
    {
        let texture_depth: u32 = match self.texture_depth {
            TextureDepth::T4Bit => 0,
            TextureDepth::T8Bit => 1,
            TextureDepth::T15Bit => 2,
        };
        let field: u32 = match self.field {
            Field::Top => 1,
            Field::Bottom => 0,
        };
        let vmode: u32 = match self.vmode {
            VMode::Ntsc => 0,
            VMode::Pal => 1,
        };
        let display_depth: u32 = match self.display_depth {
            DisplayDepth::D15Bits => 0,
            DisplayDepth::D24Bits => 1,
        };
        let dma_direction: u32 = match self.dma_direction {
            DmaDirection::Off => 0,
            DmaDirection::Fifo => 1,
            DmaDirection::CpuToGp0 => 2,
            DmaDirection::VramToCpu => 3,
        };

        let r = (self.page_base_x as u32) | ((self.page_base_y as u32) << 4) | ((
        self.semi_transparency as u32) << 5) | (texture_depth << 7) | ((self.dithering
            as u32) << 9) | ((self.draw_to_display as u32) << 10) | ((self.force_set_mask_bit
            as u32) << 11) | ((self.preserve_masked_pixels as u32) << 12) | (field << 13) | ((
        self.texture_disable as u32) << 15) | ((self.hres.0 as u32) << 16) | (vmode << 20) | (
        display_depth << 21) | ((self.interlaced as u32) << 22) | ((self.display_disabled
            as u32) << 23) | ((self.interlaced as u32) << 24) | (1u32 << 26) | (1u32 << 27) | (1u32
            << 28) | (dma_direction << 29);

        let dma_request: u32 = match self.dma_direction {
            DmaDirection::Off => 0,
            DmaDirection::Fifo => 1,
            DmaDirection::CpuToGp0 => (r >> 28) & 1,
            DmaDirection::VramToCpu => (r >> 27) & 1,
        };

        r | (dma_request << 25)
    }


    /// Queued-command port.  The first word of an idle port picks the
    /// handler and its length; each word is buffered until the length is
    /// reached, then the handler runs.  In image-load mode the words are
    /// drained without buffering.
    /// Queued-command port.  The first word of an idle port picks the
    /// handler and its length; each word is buffered until the length is
    /// reached, then the handler runs.  In image-load mode the words are
    /// drained without buffering.
    pub fn gp0(&mut self, val: u32) -> (r: Result<(), Fault>)
        requires
            old(self).wf(),
        ensures
            final(self).wf(),
            gp0_post(*old(self), *final(self), val, r),
    {
        let r = self.gp0_word(val);
        proof {
            reveal(gp0_post);
        }
        r
    }

    /// The body of `gp0`, split on whether the port is idle.
    fn gp0_word(&mut self, val: u32) -> (r: Result<(), Fault>)
        requires
            old(self).wf(),
        ensures
            final(self).wf(),
            old(self).gp0_words_remaining == 0 && gp0_decode((val >> 24) & 0xFF) is None ==> r
                == Err::<(), Fault>(Fault::UnknownGp0Opcode { value: val }) && *final(self)
                == *old(self),
            old(self).gp0_mode is Command && old(self).gp0_words_remaining == 0 && gp0_decode(
                (val >> 24) & 0xFF,
            ) is Some && (gp0_decode((val >> 24) & 0xFF)->0).0 > 1 ==> r is Ok && *final(self) == (
            Gpu {
                gp0_words_remaining: ((gp0_decode((val >> 24) & 0xFF)->0).0 - 1) as u32,
                gp0_op: (gp0_decode((val >> 24) & 0xFF)->0).1,
                gp0_command: final(self).gp0_command,
                ..*old(self)
            }) && final(self).gp0_command@ =~= seq![val],
            old(self).gp0_mode is Command && old(self).gp0_words_remaining > 1 ==> r is Ok
                && *final(self) == (Gpu {
                gp0_words_remaining: (old(self).gp0_words_remaining - 1) as u32,
                gp0_command: final(self).gp0_command,
                ..*old(self)
            }) && final(self).gp0_command@ == old(self).gp0_command@.push(val),
            old(self).gp0_mode is ImageLoad && old(self).gp0_words_remaining > 1 ==> r is Ok
                && *final(self) == (Gpu {
                gp0_words_remaining: (old(self).gp0_words_remaining - 1) as u32,
                ..*old(self)
            }),
            old(self).gp0_mode is ImageLoad && old(self).gp0_words_remaining == 1 ==> r is Ok
                && *final(self) == (Gpu {
                gp0_words_remaining: 0,
                gp0_mode: Gp0Mode::Command,
                ..*old(self)
            }),
            gp0_completing(*old(self), val) ==> gp0_complete_post(
                *old(self),
                *final(self),
                gp0_cmd_words(*old(self), val),
                gp0_cmd_op(*old(self), val),
                r,
            ),
    {
        if self.gp0_words_remaining == 0 {
            self.gp0_first_word(val)
        } else {
            self.gp0_next_word(val)
        }
    }

    /// An idle port: decode the opcode, then take the word.
    #[verifier::rlimit(100)]
    #[verifier::spinoff_prover]
    fn gp0_first_word(&mut self, val: u32) -> (r: Result<(), Fault>)
        requires
            old(self).wf(),
            old(self).gp0_words_remaining == 0,
        ensures
            final(self).wf(),
            gp0_decode((val >> 24) & 0xFF) is None ==> r == Err::<(), Fault>(
                Fault::UnknownGp0Opcode { value: val },
            ) && *final(self) == *old(self),
            old(self).gp0_mode is Command && gp0_decode((val >> 24) & 0xFF) is Some && (gp0_decode(
                (val >> 24) & 0xFF,
            )->0).0 > 1 ==> r is Ok && *final(self) == (Gpu {
                gp0_words_remaining: ((gp0_decode((val >> 24) & 0xFF)->0).0 - 1) as u32,
                gp0_op: (gp0_decode((val >> 24) & 0xFF)->0).1,
                gp0_command: final(self).gp0_command,
                ..*old(self)
            }) && final(self).gp0_command@ =~= seq![val],
            gp0_completing(*old(self), val) ==> gp0_complete_post(
                *old(self),
                *final(self),
                gp0_cmd_words(*old(self), val),
                gp0_cmd_op(*old(self), val),
                r,
            ),
    {
        let opcode = (val >> 24) & 0xFF;

        let decoded: Option<(u32, Gp0Opcode)> = Self::decode_gp0(opcode);
        let (len, op) = match decoded {
            Some(pair) => pair,
            None => {
                return Err(Fault::UnknownGp0Opcode { value: val });
            },
        };

        self.gp0_words_remaining = len - 1;
        self.gp0_op = op;
        self.gp0_command.clear();

        match self.gp0_mode {
            Gp0Mode::Command => {
                self.gp0_command.push_word(val);

                if self.gp0_words_remaining == 0 {
                    proof {
                        assert(self.gp0_command@ =~= gp0_cmd_words(*old(self), val));
                    }
                    self.complete_word(Ghost(*old(self)), val)
                } else {
                    Ok(())
                }
            },
            Gp0Mode::ImageLoad => {
                if self.gp0_words_remaining == 0 {
                    proof {
                        self.gp0_command.lemma_len_bound();
                    }
                    self.gp0_mode = Gp0Mode::Command;
                }
                Ok(())
            },
        }
    }

    /// A busy port: the word goes to the buffer or the image drain.
    #[verifier::rlimit(100)]
    #[verifier::spinoff_prover]
    fn gp0_next_word(&mut self, val: u32) -> (r: Result<(), Fault>)
        requires
            old(self).wf(),
            old(self).gp0_words_remaining > 0,
        ensures
            final(self).wf(),
            old(self).gp0_mode is Command && old(self).gp0_words_remaining > 1 ==> r is Ok
                && *final(self) == (Gpu {
                gp0_words_remaining: (old(self).gp0_words_remaining - 1) as u32,
                gp0_command: final(self).gp0_command,
                ..*old(self)
            }) && final(self).gp0_command@ == old(self).gp0_command@.push(val),
            old(self).gp0_mode is ImageLoad && old(self).gp0_words_remaining > 1 ==> r is Ok
                && *final(self) == (Gpu {
                gp0_words_remaining: (old(self).gp0_words_remaining - 1) as u32,
                ..*old(self)
            }),
            old(self).gp0_mode is ImageLoad && old(self).gp0_words_remaining == 1 ==> r is Ok
                && *final(self) == (Gpu {
                gp0_words_remaining: 0,
                gp0_mode: Gp0Mode::Command,
                ..*old(self)
            }),
            gp0_completing(*old(self), val) ==> gp0_complete_post(
                *old(self),
                *final(self),
                gp0_cmd_words(*old(self), val),
                gp0_cmd_op(*old(self), val),
                r,
            ),
    {
        self.gp0_words_remaining = self.gp0_words_remaining - 1;

        match self.gp0_mode {
            Gp0Mode::Command => {
                self.gp0_command.push_word(val);

                if self.gp0_words_remaining == 0 {
                    proof {
                        assert(self.gp0_command@ =~= gp0_cmd_words(*old(self), val));
                    }
                    self.complete_word(Ghost(*old(self)), val)
                } else {
                    Ok(())
                }
            },
            Gp0Mode::ImageLoad => {
                if self.gp0_words_remaining == 0 {
                    proof {
                        self.gp0_command.lemma_len_bound();
                    }
                    self.gp0_mode = Gp0Mode::Command;
                }
                Ok(())
            },
        }
    }

    /// The GP0 decode table, as `gp0_decode` states it.
    fn decode_gp0(opcode: u32) -> (r: Option<(u32, Gp0Opcode)>)
        ensures
            r == gp0_decode(opcode),
            r is Some ==> 1 <= (r->0).0 <= 9,
    {
        proof {
            reveal(gp0_decode);
        }
        match opcode {
            0x00 => Some((1, Gp0Opcode::Nop)),
            0x01 => Some((1, Gp0Opcode::ClearCache)),
            0x28 => Some((5, Gp0Opcode::QuadMonoOpaque)),
            0x2C => Some((9, Gp0Opcode::QuadTextureBlendOpaque)),
            0x30 => Some((6, Gp0Opcode::TriangleShadedOpaque)),
            0x38 => Some((8, Gp0Opcode::QuadShadedOpaque)),
            0xA0 => Some((3, Gp0Opcode::ImageLoad)),
            0xC0 => Some((3, Gp0Opcode::ImageStore)),
            0xE1 => Some((1, Gp0Opcode::DrawMode)),
            0xE2 => Some((1, Gp0Opcode::TextureWindow)),
            0xE3 => Some((1, Gp0Opcode::DrawingAreaTopLeft)),
            0xE4 => Some((1, Gp0Opcode::DrawingAreaBottomRight)),
            0xE5 => Some((1, Gp0Opcode::DrawingOffset)),
            0xE6 => Some((1, Gp0Opcode::MaskBitSetting)),
            _ => None,
        }
    }

    /// Runs the handler of the command the arriving word completed, as
    /// `gp0_complete_post` states it against the state `c0` the word
    /// arrived in.
    #[verifier::rlimit(100)]
    #[verifier::spinoff_prover]
    fn complete_word(&mut self, Ghost(c0): Ghost<Gpu>, val: u32) -> (r: Result<(), Fault>)
        requires
            old(self).wf(),
            old(self).gp0_command@.len() >= 1,
            old(self).gp0_words_remaining == 0,
            *old(self) == (Gpu {
                gp0_command: old(self).gp0_command,
                gp0_words_remaining: 0,
                gp0_op: gp0_cmd_op(c0, val),
                ..c0
            }),
            old(self).gp0_command@ == gp0_cmd_words(c0, val),
        ensures
            final(self).wf(),
            gp0_complete_post(
                c0,
                *final(self),
                gp0_cmd_words(c0, val),
                gp0_cmd_op(c0, val),
                r,
            ),
    {
        let ghost mid = *old(self);
        let res = self.run_gp0_handler();
        proof {
            reveal(gp0_handler_post);
            lemma_gp0_complete_shift(
                c0,
                mid,
                *self,
                gp0_cmd_words(c0, val),
                gp0_cmd_op(c0, val),
                res,
            );
        }
        res
    }

    /// Runs the buffered command once its last word has arrived, as
    /// `gp0_handler_post` states it.
    #[verifier::rlimit(100)]
    #[verifier::spinoff_prover]
    fn run_gp0_handler(&mut self) -> (r: Result<(), Fault>)
        requires
            old(self).wf(),
            old(self).gp0_command@.len() >= 1,
            old(self).gp0_words_remaining == 0,
        ensures
            final(self).wf(),
            gp0_handler_post(*old(self), *final(self), r),
    {
        proof {
            reveal(gp0_handler_post);
            reveal(gp0_complete_post);
        }
        match self.gp0_op {
            Gp0Opcode::Nop => Ok(()),
            Gp0Opcode::ClearCache => Ok(()),
            Gp0Opcode::QuadMonoOpaque => {
                if self.gp0_command.len() < 5 {
                    return Ok(());
                }
                self.gp0_quad_mono_opaque();
                Ok(())
            },
            Gp0Opcode::QuadTextureBlendOpaque => {
                if self.gp0_command.len() < 8 {
                    return Ok(());
                }
                self.gp0_quad_texture_blend_opaque();
                Ok(())
            },
            Gp0Opcode::TriangleShadedOpaque => {
                if self.gp0_command.len() < 6 {
                    return Ok(());
                }
                self.gp0_triangle_shaded_opaque();
                Ok(())
            },
            Gp0Opcode::QuadShadedOpaque => {
                if self.gp0_command.len() < 8 {
                    return Ok(());
                }
                self.gp0_quad_shaded_opaque();
                Ok(())
            },
            Gp0Opcode::ImageLoad => {
                if self.gp0_command.len() < 3 {
                    return Ok(());
                }
                self.gp0_image_load();
                Ok(())
            },
            Gp0Opcode::ImageStore => Ok(()),
            Gp0Opcode::DrawMode => self.gp0_draw_mode(),
            Gp0Opcode::TextureWindow => {
                self.gp0_texture_window();
                Ok(())
            },
            Gp0Opcode::DrawingAreaTopLeft => {
                self.gp0_drawing_area_top_left();
                Ok(())
            },
            Gp0Opcode::DrawingAreaBottomRight => {
                self.gp0_drawing_area_bottom_right();
                Ok(())
            },
            Gp0Opcode::DrawingOffset => {
                self.gp0_drawing_offset();
                Ok(())
            },
            Gp0Opcode::MaskBitSetting => {
                self.gp0_mask_bit_setting();
                Ok(())
            },
        }
    }

    /// GP0(0x28): monochrome opaque quad.
    fn gp0_quad_mono_opaque(&mut self)
        requires
            old(self).wf(),
            old(self).gp0_command@.len() >= 5,
        ensures
            final(self).wf(),
            *final(self) == (Gpu { draw_commands: final(self).draw_commands, ..*old(self) }),
            final(self).draw_commands@ == old(self).draw_commands@.push(
                quad_mono_cmd(old(self).gp0_command@),
            ),
    {
        let positions = (
            Position::from_gp0(self.gp0_command.word(1)),
            Position::from_gp0(self.gp0_command.word(2)),
            Position::from_gp0(self.gp0_command.word(3)),
            Position::from_gp0(self.gp0_command.word(4)),
        );
        let c = Color::from_gp0(self.gp0_command.word(0));

        self.push_quad(positions.0, positions.1, positions.2, positions.3, c, c, c, c);
    }

    /// GP0(0x2C): textured-blend opaque quad; textures are not
    /// rasterized, so the vertices carry a fixed blend color.
    fn gp0_quad_texture_blend_opaque(&mut self)
        requires
            old(self).wf(),
            old(self).gp0_command@.len() >= 8,
        ensures
            final(self).wf(),
            *final(self) == (Gpu { draw_commands: final(self).draw_commands, ..*old(self) }),
            final(self).draw_commands@ == old(self).draw_commands@.push(
                quad_texture_blend_cmd(old(self).gp0_command@),
            ),
    {
        let positions = (
            Position::from_gp0(self.gp0_command.word(1)),
            Position::from_gp0(self.gp0_command.word(3)),
            Position::from_gp0(self.gp0_command.word(5)),
            Position::from_gp0(self.gp0_command.word(7)),
        );
        let c = Color(0x80, 0x00, 0x00);

        self.push_quad(positions.0, positions.1, positions.2, positions.3, c, c, c, c);
    }

    /// GP0(0x30): shaded opaque triangle.
    fn gp0_triangle_shaded_opaque(&mut self)
        requires
            old(self).wf(),
            old(self).gp0_command@.len() >= 6,
        ensures
            final(self).wf(),
            *final(self) == (Gpu { draw_commands: final(self).draw_commands, ..*old(self) }),
            final(self).draw_commands@ == old(self).draw_commands@.push(
                triangle_shaded_cmd(old(self).gp0_command@),
            ),
    {
        let p0 = Position::from_gp0(self.gp0_command.word(1));
        let p1 = Position::from_gp0(self.gp0_command.word(3));
        let p2 = Position::from_gp0(self.gp0_command.word(5));
        let c0 = Color::from_gp0(self.gp0_command.word(0));
        let c1 = Color::from_gp0(self.gp0_command.word(2));
        let c2 = Color::from_gp0(self.gp0_command.word(4));

        self.push_triangles(p0, p1, p2, c0, c1, c2);
    }

    /// GP0(0x38): shaded opaque quad.
    fn gp0_quad_shaded_opaque(&mut self)
        requires
            old(self).wf(),
            old(self).gp0_command@.len() >= 8,
        ensures
            final(self).wf(),
            *final(self) == (Gpu { draw_commands: final(self).draw_commands, ..*old(self) }),
            final(self).draw_commands@ == old(self).draw_commands@.push(
                quad_shaded_cmd(old(self).gp0_command@),
            ),
    {
        let p0 = Position::from_gp0(self.gp0_command.word(1));
        let p1 = Position::from_gp0(self.gp0_command.word(3));
        let p2 = Position::from_gp0(self.gp0_command.word(5));
        let p3 = Position::from_gp0(self.gp0_command.word(7));
        let c0 = Color::from_gp0(self.gp0_command.word(0));
        let c1 = Color::from_gp0(self.gp0_command.word(2));
        let c2 = Color::from_gp0(self.gp0_command.word(4));
        let c3 = Color::from_gp0(self.gp0_command.word(6));

        self.push_quad(p0, p1, p2, p3, c0, c1, c2, c3);
    }

    /// GP0(0xA0): image load.  The resolution word decides how many
    /// halfword pairs the port drains before returning to command mode.
    fn gp0_image_load(&mut self)
        requires
            old(self).wf(),
            old(self).gp0_command@.len() >= 3,
        ensures
            final(self).wf(),
            *final(self) == (Gpu {
                gp0_words_remaining: image_words(old(self).gp0_command@[2]),
                gp0_mode: Gp0Mode::ImageLoad,
                ..*old(self)
            }),
    {
        let res = self.gp0_command.word(2);

        let width = res & 0xFFFF;
        let height = res >> 16;

        proof {
            let r = res;
            assert(r & 0xFFFF <= 0xFFFF && r >> 16 <= 0xFFFF) by (bit_vector);
            assert(width * height <= 0xFFFF * 0xFFFF) by (nonlinear_arith)
                requires
                    width <= 0xFFFF && height <= 0xFFFF,
            ;
        }
        let imgsize = width * height;
        let up = imgsize + 1;
        let rounded = up & !1u32;
        proof {
            let u = up;
            assert((u & !1u32) / 2 == u / 2) by (bit_vector);
        }

        self.gp0_words_remaining = rounded / 2;
        self.gp0_mode = Gp0Mode::ImageLoad;
    }

    /// GP0(0xE1): draw mode.  The reserved texture depth 3 is a
    /// host-fatal fault.
    fn gp0_draw_mode(&mut self) -> (r: Result<(), Fault>)
        requires
            old(self).wf(),
            old(self).gp0_command@.len() >= 1,
        ensures
            final(self).wf(),
            (old(self).gp0_command@[0] >> 7) & 3 == 3 ==> r == Err::<(), Fault>(
                Fault::UnhandledTextureDepth,
            ) && *final(self) == *old(self),
            (old(self).gp0_command@[0] >> 7) & 3 != 3 ==> r is Ok && *final(self) == (Gpu {
                page_base_x: (old(self).gp0_command@[0] & 0xF) as u8,
                page_base_y: ((old(self).gp0_command@[0] >> 4) & 1) as u8,
                semi_transparency: ((old(self).gp0_command@[0] >> 5) & 3) as u8,
                texture_depth: if (old(self).gp0_command@[0] >> 7) & 3 == 0 {
                    TextureDepth::T4Bit
                } else if (old(self).gp0_command@[0] >> 7) & 3 == 1 {
                    TextureDepth::T8Bit
                } else {
                    TextureDepth::T15Bit
                },
                dithering: (old(self).gp0_command@[0] >> 9) & 1 != 0,
                draw_to_display: (old(self).gp0_command@[0] >> 10) & 1 != 0,
                texture_disable: (old(self).gp0_command@[0] >> 11) & 1 != 0,
                rectangle_texture_x_flip: (old(self).gp0_command@[0] >> 12) & 1 != 0,
                rectangle_texture_y_flip: (old(self).gp0_command@[0] >> 13) & 1 != 0,
                ..*old(self)
            }),
    {
        let val = self.gp0_command.val1();

        let texture_depth = match (val >> 7) & 3 {
            0 => TextureDepth::T4Bit,
            1 => TextureDepth::T8Bit,
            2 => TextureDepth::T15Bit,
            _ => {
                proof {
                    let v = val;
                    assert((v >> 7) & 3 < 4) by (bit_vector);
                }
                return Err(Fault::UnhandledTextureDepth);
            },
        };

        self.page_base_x = (val & 0xF) as u8;
        self.page_base_y = ((val >> 4) & 1) as u8;
        self.semi_transparency = ((val >> 5) & 3) as u8;
        self.texture_depth = texture_depth;
        self.dithering = ((val >> 9) & 1) != 0;
        self.draw_to_display = ((val >> 10) & 1) != 0;
        self.texture_disable = ((val >> 11) & 1) != 0;
        self.rectangle_texture_x_flip = ((val >> 12) & 1) != 0;
        self.rectangle_texture_y_flip = ((val >> 13) & 1) != 0;
        Ok(())
    }

    /// GP0(0xE2): texture window.
    fn gp0_texture_window(&mut self)
        requires
            old(self).wf(),
            old(self).gp0_command@.len() >= 1,
        ensures
            final(self).wf(),
            *final(self) == (Gpu {
                texture_window_x_mask: (old(self).gp0_command@[0] & 0x1F) as u8,
                texture_window_y_mask: ((old(self).gp0_command@[0] >> 5) & 0x1F) as u8,
                texture_window_x_offset: ((old(self).gp0_command@[0] >> 10) & 0x1F) as u8,
                texture_window_y_offset: ((old(self).gp0_command@[0] >> 15) & 0x1F) as u8,
                ..*old(self)
            }),
    {
        let val = self.gp0_command.val1();
        self.texture_window_x_mask = (val & 0x1F) as u8;
        self.texture_window_y_mask = ((val >> 5) & 0x1F) as u8;
        self.texture_window_x_offset = ((val >> 10) & 0x1F) as u8;
        self.texture_window_y_offset = ((val >> 15) & 0x1F) as u8;
    }

    /// GP0(0xE3): drawing area top left.
    fn gp0_drawing_area_top_left(&mut self)
        requires
            old(self).wf(),
            old(self).gp0_command@.len() >= 1,
        ensures
            final(self).wf(),
            *final(self) == (Gpu {
                drawing_area_top: ((old(self).gp0_command@[0] >> 10) & 0x3FF) as u16,
                drawing_area_left: (old(self).gp0_command@[0] & 0x3FF) as u16,
                ..*old(self)
            }),
    {
        let val = self.gp0_command.val1();
        self.drawing_area_top = ((val >> 10) & 0x3FF) as u16;
        self.drawing_area_left = (val & 0x3FF) as u16;
    }

    /// GP0(0xE4): drawing area bottom right.
    fn gp0_drawing_area_bottom_right(&mut self)
        requires
            old(self).wf(),
            old(self).gp0_command@.len() >= 1,
        ensures
            final(self).wf(),
            *final(self) == (Gpu {
                drawing_area_bottom: ((old(self).gp0_command@[0] >> 10) & 0x3FF) as u16,
                drawing_area_right: (old(self).gp0_command@[0] & 0x3FF) as u16,
                ..*old(self)
            }),
    {
        let val = self.gp0_command.val1();
        self.drawing_area_bottom = ((val >> 10) & 0x3FF) as u16;
        self.drawing_area_right = (val & 0x3FF) as u16;
    }

    /// GP0(0xE5): drawing offset, handed to the rasterizer with its
    /// signed 11-bit fields sign-extended.
    fn gp0_drawing_offset(&mut self)
        requires
            old(self).wf(),
            old(self).gp0_command@.len() >= 1,
        ensures
            final(self).wf(),
            *final(self) == (Gpu { draw_commands: final(self).draw_commands, ..*old(self) }),
            final(self).draw_commands@ == old(self).draw_commands@.push(
                DrawCommand::DrawOffset {
                    x: sign11((old(self).gp0_command@[0] & 0x7FF) as u16),
                    y: sign11(((old(self).gp0_command@[0] >> 11) & 0x7FF) as u16),
                },
            ),
    {
        let val = self.gp0_command.val1();
        let x = (val & 0x7FF) as u16;
        let y = ((val >> 11) & 0x7FF) as u16;

        self.set_draw_offset(((x << 5) as i16) >> 5, ((y << 5) as i16) >> 5);
    }

    /// GP0(0xE6): mask bit setting.
    fn gp0_mask_bit_setting(&mut self)
        requires
            old(self).wf(),
            old(self).gp0_command@.len() >= 1,
        ensures
            final(self).wf(),
            *final(self) == (Gpu {
                force_set_mask_bit: old(self).gp0_command@[0] & 1 != 0,
                preserve_masked_pixels: old(self).gp0_command@[0] & 2 != 0,
                ..*old(self)
            }),
    {
        let val = self.gp0_command.val1();
        self.force_set_mask_bit = (val & 1) != 0;
        self.preserve_masked_pixels = (val & 2) != 0;
    }

    /// Queues a shaded triangle for the rasterizer sink.
    fn push_triangles(&mut self, p0: Position, p1: Position, p2: Position, c0: Color, c1: Color,
        c2: Color)
        ensures
            *final(self) == (Gpu { draw_commands: final(self).draw_commands, ..*old(self) }),
            final(self).draw_commands@ == old(self).draw_commands@.push(
                DrawCommand::Triangle { p0, p1, p2, c0, c1, c2 },
            ),
    {
        self.draw_commands.push(DrawCommand::Triangle { p0, p1, p2, c0, c1, c2 });
    }

    /// Queues a shaded quad for the rasterizer sink.
    fn push_quad(&mut self, p0: Position, p1: Position, p2: Position, p3: Position, c0: Color,
        c1: Color, c2: Color, c3: Color)
        ensures
            *final(self) == (Gpu { draw_commands: final(self).draw_commands, ..*old(self) }),
            final(self).draw_commands@ == old(self).draw_commands@.push(
                DrawCommand::Quad { p0, p1, p2, p3, c0, c1, c2, c3 },
            ),
    {
        self.draw_commands.push(DrawCommand::Quad { p0, p1, p2, p3, c0, c1, c2, c3 });
    }

    /// Queues a drawing-offset change for the rasterizer sink.
    fn set_draw_offset(&mut self, x: i16, y: i16)
        ensures
            *final(self) == (Gpu { draw_commands: final(self).draw_commands, ..*old(self) }),
            final(self).draw_commands@ == old(self).draw_commands@.push(
                DrawCommand::DrawOffset { x, y },
            ),
    {
        self.draw_commands.push(DrawCommand::DrawOffset { x, y });
    }

    /// Hands the queued primitives to the host and empties the queue.
    pub fn take_draw_commands(&mut self) -> (r: Vec<DrawCommand>)
        ensures
            r@ == old(self).draw_commands@,
            *final(self) == (Gpu { draw_commands: final(self).draw_commands, ..*old(self) }),
            final(self).draw_commands@.len() == 0,
    {
        let mut taken: Vec<DrawCommand> = Vec::new();
        core::mem::swap(&mut taken, &mut self.draw_commands);
        taken
    }


    /// Immediate control port.
    pub fn gp1(&mut self, val: u32) -> (r: Result<(), Fault>)
        requires
            old(self).wf(),
        ensures
            final(self).wf(),
            gp1_post(*old(self), *final(self), val, r),
    {
        let opcode = (val >> 24) & 0xFF;

        match opcode {
            0x00 => {
                self.gp1_reset();
                Ok(())
            },
            0x01 => {
                self.gp1_reset_command_buffer();
                Ok(())
            },
            0x02 => {
                self.gp1_acknowledge_irq();
                Ok(())
            },
            0x03 => {
                self.gp1_display_enable(val);
                Ok(())
            },
            0x04 => {
                self.gp1_dma_direction(val);
                Ok(())
            },
            0x05 => {
                self.gp1_display_vram_start(val);
                Ok(())
            },
            0x06 => {
                self.gp1_display_horizontal_range(val);
                Ok(())
            },
            0x07 => {
                self.gp1_display_vertical_range(val);
                Ok(())
            },
            0x08 => self.gp1_display_mode(val),
            _ => Err(Fault::UnknownGp1Opcode { value: val }),
        }
    }

    /// GP1(0x02): acknowledge the GPU interrupt.
    fn gp1_acknowledge_irq(&mut self)
        requires
            old(self).wf(),
        ensures
            final(self).wf(),
            gp1_ack_irq_post(*old(self), *final(self)),
    {
        proof {
            reveal(gp1_ack_irq_post);
        }
        self.interrupt = false;
    }

    /// GP1(0x03): display enable.
    fn gp1_display_enable(&mut self, val: u32)
        requires
            old(self).wf(),
        ensures
            final(self).wf(),
            gp1_display_enable_post(*old(self), *final(self), val),
    {
        proof {
            reveal(gp1_display_enable_post);
        }
        self.display_disabled = val & 1 != 0;
    }

    /// GP1(0x04): DMA direction.
    fn gp1_dma_direction(&mut self, val: u32)
        requires
            old(self).wf(),
        ensures
            final(self).wf(),
            gp1_dma_direction_post(*old(self), *final(self), val),
    {
        proof {
            reveal(gp1_dma_direction_post);
        }
        self.dma_direction = if val & 3 == 0 {
            DmaDirection::Off
        } else if val & 3 == 1 {
            DmaDirection::Fifo
        } else if val & 3 == 2 {
            DmaDirection::CpuToGp0
        } else {
            DmaDirection::VramToCpu
        };
    }

    /// GP1(0x05): display VRAM start.
    fn gp1_display_vram_start(&mut self, val: u32)
        requires
            old(self).wf(),
        ensures
            final(self).wf(),
            gp1_display_vram_start_post(*old(self), *final(self), val),
    {
        proof {
            reveal(gp1_display_vram_start_post);
        }
        self.display_vram_x_start = (val & 0x3FE) as u16;
        self.display_vram_y_start = ((val >> 10) & 0x1FF) as u16;
    }

    /// GP1(0x06): display horizontal range.
    fn gp1_display_horizontal_range(&mut self, val: u32)
        requires
            old(self).wf(),
        ensures
            final(self).wf(),
            gp1_horiz_range_post(*old(self), *final(self), val),
    {
        proof {
            reveal(gp1_horiz_range_post);
        }
        self.display_horiz_start = (val & 0xFFF) as u16;
        self.display_horiz_end = ((val >> 12) & 0xFFF) as u16;
    }

    /// GP1(0x07): display vertical range.
    fn gp1_display_vertical_range(&mut self, val: u32)
        requires
            old(self).wf(),
        ensures
            final(self).wf(),
            gp1_vert_range_post(*old(self), *final(self), val),
    {
        proof {
            reveal(gp1_vert_range_post);
        }
        self.display_line_start = (val & 0x3FF) as u16;
        self.display_line_end = ((val >> 10) & 0x3FF) as u16;
    }

    /// GP1(0x00): soft reset of the whole draw and display state, with
    /// the default display window re-armed.
    fn gp1_reset(&mut self)
        requires
            old(self).wf(),
        ensures
            final(self).wf(),
            gp1_reset_post(*old(self), *final(self)),
    {
        proof {
            reveal(gp1_reset_post);
            reveal(gp1_clear_fifo_post);
        }
        self.interrupt = false;

        self.page_base_x = 0;
        self.page_base_y = 0;
        self.semi_transparency = 0;
        self.texture_depth = TextureDepth::T4Bit;
        self.texture_window_x_mask = 0;
        self.texture_window_y_mask = 0;
        self.texture_window_x_offset = 0;
        self.texture_window_y_offset = 0;
        self.dithering = false;
        self.draw_to_display = false;
        self.texture_disable = false;
        self.rectangle_texture_x_flip = false;
        self.rectangle_texture_y_flip = false;
        self.drawing_area_left = 0;
        self.drawing_area_top = 0;
        self.drawing_area_right = 0;
        self.drawing_area_bottom = 0;
        self.force_set_mask_bit = false;
        self.preserve_masked_pixels = false;

        self.dma_direction = DmaDirection::Off;

        self.display_disabled = true;

        self.display_vram_x_start = 0;
        self.display_vram_y_start = 0;
        self.hres = HorizontalRes::from_fields(0, 0);
        self.vres = VerticalRes::Y240Lines;

        self.vmode = VMode::Ntsc;
        self.interlaced = true;
        self.display_horiz_start = 0x200;
        self.display_horiz_end = 0xC00;
        self.display_line_start = 0x010;
        self.display_line_end = 0x100;
        self.display_depth = DisplayDepth::D15Bits;

        self.set_draw_offset(0, 0);

        self.gp1_reset_command_buffer();
        proof {
            assert(((0u8 & 1) | ((0u8 & 3) << 1)) == 0u8) by (bit_vector);
        }
    }

    /// GP1(0x01): clear the command FIFO.
    fn gp1_reset_command_buffer(&mut self)
        requires
            old(self).wf(),
        ensures
            final(self).wf(),
            gp1_clear_fifo_post(*old(self), *final(self)),
    {
        proof {
            reveal(gp1_clear_fifo_post);
        }
        self.gp0_command.clear();
        self.gp0_words_remaining = 0;
        self.gp0_mode = Gp0Mode::Command;
    }

    /// GP1(0x08): display mode.  The unsupported bit 7 is a host-fatal
    /// fault.
    fn gp1_display_mode(&mut self, val: u32) -> (r: Result<(), Fault>)
        requires
            old(self).wf(),
        ensures
            final(self).wf(),
            val & 0x80 != 0 ==> r == Err::<(), Fault>(Fault::UnhandledDisplayMode { value: val })
                && *final(self) == *old(self),
            val & 0x80 == 0 ==> r is Ok && gp1_display_mode_post(*old(self), *final(self), val),
    {
        proof {
            reveal(gp1_display_mode_post);
        }
        if val & 0x80 != 0 {
            return Err(Fault::UnhandledDisplayMode { value: val });
        }

        let hr1 = (val & 3) as u8;
        let hr2 = ((val >> 6) & 1) as u8;

        self.hres = HorizontalRes::from_fields(hr1, hr2);
        self.vres = if val & 0x4 != 0 {
            VerticalRes::Y480Lines
        } else {
            VerticalRes::Y240Lines
        };

        self.vmode = if val & 0x8 != 0 {
            VMode::Pal
        } else {
            VMode::Ntsc
        };

        self.display_depth = if val & 0x10 != 0 {
            DisplayDepth::D15Bits
        } else {
            DisplayDepth::D24Bits
        };

        self.interlaced = val & 0x20 != 0;
        Ok(())
    }

    /// GPUREAD: image stores are not rasterized, so reads return zero.
    pub fn read(&self) -> (r: u32)
        ensures
            r == 0,
    {
        0
    }
}

} // verus!

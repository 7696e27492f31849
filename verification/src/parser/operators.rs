//! The operators of the PGF drawing language: what each is called, how many
//! operands it takes from the stack, and which handler interprets it.
use vstd::prelude::*;

use crate::text::chars_of;

verus! {

pub struct OperatorDef {
    pub name: &'static str,
    /// Operands taken from the stack; `None` where the count varies.
    pub arg_count: Option<usize>,
    pub handler: &'static str,
}

/// `str == str`: the same characters in the same order.
pub(crate) fn str_equals(a: &str, b: &str) -> (r: bool)
    ensures
        r == (a@ == b@),
{
    let x = chars_of(a);
    let y = chars_of(b);
    if x.len() != y.len() {
        return false;
    }
    let mut i: usize = 0;
    while i < x.len()
        invariant
            i <= x@.len(),
            x@.len() == y@.len(),
            x@ == a@,
            y@ == b@,
            forall|j: int| 0 <= j < i ==> x@[j] == y@[j],
        decreases x.len() - i,
    {
        if x[i] != y[i] {
            return false;
        }
        i += 1;
    }
    assert(x@ =~= y@);
    true
}

/// The operator table: for each known operator its name, operand count and
/// handler.
pub open spec fn operator_spec(name: Seq<char>) -> Option<(Seq<char>, Option<usize>, Seq<char>)> {
    if name == "m"@ {
        Some(("moveto"@, Some(2usize), "handle_moveto"@))
    } else if name == "l"@ {
        Some(("lineto_smooth"@, Some(2usize), "handle_lineto"@))
    } else if name == "L"@ {
        Some(("lineto_corner"@, Some(2usize), "handle_lineto"@))
    } else if name == "c"@ {
        Some(("curveto_smooth"@, Some(6usize), "handle_curveto"@))
    } else if name == "C"@ {
        Some(("curveto_corner"@, Some(6usize), "handle_curveto"@))
    } else if name == "v"@ {
        Some(("curveto_v_smooth"@, Some(4usize), "handle_curveto_v"@))
    } else if name == "V"@ {
        Some(("curveto_v_corner"@, Some(4usize), "handle_curveto_v"@))
    } else if name == "y"@ {
        Some(("curveto_y_smooth"@, Some(4usize), "handle_curveto_y"@))
    } else if name == "Y"@ {
        Some(("curveto_y_corner"@, Some(4usize), "handle_curveto_y"@))
    } else if name == "H"@ {
        Some(("closepath"@, Some(0usize), "handle_closepath"@))
    } else if name == "N"@ {
        Some(("path_noop_open"@, Some(0usize), "handle_render"@))
    } else if name == "n"@ {
        Some(("path_noop_closed"@, Some(0usize), "handle_render"@))
    } else if name == "F"@ {
        Some(("fill_open"@, Some(0usize), "handle_render"@))
    } else if name == "f"@ {
        Some(("fill_closed"@, Some(0usize), "handle_render"@))
    } else if name == "S"@ {
        Some(("stroke_open"@, Some(0usize), "handle_render"@))
    } else if name == "s"@ {
        Some(("stroke_closed"@, Some(0usize), "handle_render"@))
    } else if name == "B"@ {
        Some(("fill_stroke_open"@, Some(0usize), "handle_render"@))
    } else if name == "b"@ {
        Some(("fill_stroke_closed"@, Some(0usize), "handle_render"@))
    } else if name == "g"@ {
        Some(("gray_fill"@, Some(1usize), "handle_gray_fill"@))
    } else if name == "G"@ {
        Some(("gray_stroke"@, Some(1usize), "handle_gray_stroke"@))
    } else if name == "k"@ {
        Some(("cmyk_fill"@, Some(4usize), "handle_cmyk_fill"@))
    } else if name == "K"@ {
        Some(("cmyk_stroke"@, Some(4usize), "handle_cmyk_stroke"@))
    } else if name == "Xa"@ {
        Some(("rgb_fill"@, Some(3usize), "handle_rgb_fill"@))
    } else if name == "XA"@ {
        Some(("rgb_stroke"@, Some(3usize), "handle_rgb_stroke"@))
    } else if name == "x"@ {
        Some(("spot_fill"@, None, "handle_spot_fill"@))
    } else if name == "X"@ {
        Some(("spot_stroke"@, None, "handle_spot_stroke"@))
    } else if name == "Xx"@ {
        Some(("custom_fill"@, None, "handle_custom_fill"@))
    } else if name == "XX"@ {
        Some(("custom_stroke"@, None, "handle_custom_stroke"@))
    } else if name == "w"@ {
        Some(("line_width"@, Some(1usize), "handle_line_width"@))
    } else if name == "J"@ {
        Some(("line_cap"@, Some(1usize), "handle_line_cap"@))
    } else if name == "j"@ {
        Some(("line_join"@, Some(1usize), "handle_line_join"@))
    } else if name == "M"@ {
        Some(("miter_limit"@, Some(1usize), "handle_miter_limit"@))
    } else if name == "d"@ {
        Some(("dash"@, None, "handle_dash"@))
    } else if name == "i"@ {
        Some(("flatness"@, Some(1usize), "handle_noop"@))
    } else if name == "D"@ {
        Some(("setdash_ai"@, None, "handle_dash"@))
    } else if name == "q"@ {
        Some(("gsave"@, Some(0usize), "handle_gsave"@))
    } else if name == "Q"@ {
        Some(("grestore"@, Some(0usize), "handle_grestore"@))
    } else if name == "W"@ {
        Some(("clip"@, Some(0usize), "handle_clip"@))
    } else if name == "cm"@ {
        Some(("concat_matrix"@, Some(6usize), "handle_concat_matrix"@))
    } else if name == "u"@ {
        Some(("begin_group"@, Some(0usize), "handle_begin_group"@))
    } else if name == "U"@ {
        Some(("end_group"@, Some(0usize), "handle_end_group"@))
    } else if name == "*u"@ {
        Some(("begin_compound"@, Some(0usize), "handle_begin_compound"@))
    } else if name == "*U"@ {
        Some(("end_compound"@, Some(0usize), "handle_end_compound"@))
    } else if name == "Lb"@ {
        Some(("begin_layer"@, None, "handle_begin_layer"@))
    } else if name == "LB"@ {
        Some(("end_layer"@, Some(0usize), "handle_end_layer"@))
    } else if name == "Ln"@ {
        Some(("layer_name"@, Some(1usize), "handle_layer_name"@))
    } else if name == "To"@ {
        Some(("begin_text"@, Some(1usize), "handle_begin_text"@))
    } else if name == "TO"@ {
        Some(("end_text"@, Some(0usize), "handle_end_text"@))
    } else if name == "Tp"@ {
        Some(("text_path"@, Some(6usize), "handle_text_path"@))
    } else if name == "TP"@ {
        Some(("end_text_path"@, Some(0usize), "handle_end_text_path"@))
    } else if name == "Tx"@ {
        Some(("text_render"@, Some(1usize), "handle_text_render"@))
    } else if name == "TX"@ {
        Some(("text_render_end"@, Some(0usize), "handle_noop"@))
    } else if name == "Tf"@ {
        Some(("text_font"@, Some(2usize), "handle_text_font"@))
    } else if name == "Tj"@ {
        Some(("text_show"@, Some(1usize), "handle_text_render"@))
    } else if name == "TJ"@ {
        Some(("text_show_kerned"@, None, "handle_noop"@))
    } else if name == "Tk"@ {
        Some(("text_tracking"@, Some(2usize), "handle_noop"@))
    } else if name == "Tc"@ {
        Some(("text_char_spacing"@, Some(1usize), "handle_noop"@))
    } else if name == "Tw"@ {
        Some(("text_word_spacing"@, Some(1usize), "handle_noop"@))
    } else if name == "Ts"@ {
        Some(("text_rise"@, Some(1usize), "handle_noop"@))
    } else if name == "Ti"@ {
        Some(("text_indent"@, Some(1usize), "handle_noop"@))
    } else if name == "Tz"@ {
        Some(("text_horiz_scale"@, Some(1usize), "handle_noop"@))
    } else if name == "TA"@ {
        Some(("text_alignment"@, None, "handle_noop"@))
    } else if name == "Tq"@ {
        Some(("text_hanging_punct"@, None, "handle_noop"@))
    } else if name == "Bb"@ {
        Some(("begin_gradient"@, Some(1usize), "handle_begin_gradient"@))
    } else if name == "BB"@ {
        Some(("end_gradient"@, Some(0usize), "handle_end_gradient"@))
    } else if name == "Bd"@ {
        Some(("begin_gradient_def"@, None, "handle_begin_gradient_def"@))
    } else if name == "BD"@ {
        Some(("end_gradient_def"@, Some(0usize), "handle_end_gradient_def"@))
    } else if name == "Bg"@ {
        Some(("gradient_geometry"@, None, "handle_gradient_geometry"@))
    } else if name == "Bs"@ {
        Some(("gradient_stop"@, None, "handle_gradient_stop"@))
    } else if name == "BR"@ {
        Some(("gradient_ramp"@, None, "handle_noop"@))
    } else if name == "Bm"@ {
        Some(("gradient_midpoint"@, None, "handle_noop"@))
    } else if name == "E"@ {
        Some(("begin_pattern"@, None, "handle_noop"@))
    } else if name == "e"@ {
        Some(("end_pattern"@, Some(0usize), "handle_noop"@))
    } else if name == "AI5_SetPalette"@ {
        Some(("set_palette"@, None, "handle_noop"@))
    } else if name == "XI"@ {
        Some(("raster_image"@, None, "handle_raster_image"@))
    } else if name == "'"@ {
        Some(("placed_file"@, None, "handle_noop"@))
    } else if name == "Adobe_Illustrator_AI5"@ {
        Some(("ai5_procset"@, Some(1usize), "handle_noop"@))
    } else if name == "Adobe_ctte"@ {
        Some(("ctte_procset"@, None, "handle_noop"@))
    } else if name == "Adobe_level2_AI5"@ {
        Some(("level2_procset"@, None, "handle_noop"@))
    } else if name == "Adobe_ColorImage_AI6"@ {
        Some(("colorimage_procset"@, None, "handle_noop"@))
    } else if name == "Adobe_shading_AI8"@ {
        Some(("shading_procset"@, None, "handle_noop"@))
    } else if name == "pop"@ {
        Some(("pop"@, Some(0usize), "handle_pop"@))
    } else if name == "def"@ {
        Some(("define"@, Some(0usize), "handle_noop"@))
    } else if name == "exec"@ {
        Some(("exec"@, Some(0usize), "handle_noop"@))
    } else if name == "null"@ {
        Some(("null"@, Some(0usize), "handle_null"@))
    } else if name == "true"@ {
        Some(("true"@, Some(0usize), "handle_true"@))
    } else if name == "false"@ {
        Some(("false"@, Some(0usize), "handle_false"@))
    } else if name == "bind"@ {
        Some(("bind"@, Some(0usize), "handle_noop"@))
    } else if name == "dup"@ {
        Some(("dup"@, Some(0usize), "handle_dup"@))
    } else if name == "exch"@ {
        Some(("exch"@, Some(0usize), "handle_exch"@))
    } else if name == "copy"@ {
        Some(("copy"@, Some(1usize), "handle_noop"@))
    } else if name == "index"@ {
        Some(("index"@, Some(1usize), "handle_noop"@))
    } else if name == "roll"@ {
        Some(("roll"@, Some(2usize), "handle_noop"@))
    } else if name == "cleartomark"@ {
        Some(("cleartomark"@, Some(0usize), "handle_noop"@))
    } else if name == "counttomark"@ {
        Some(("counttomark"@, Some(0usize), "handle_noop"@))
    } else if name == "mark"@ {
        Some(("mark"@, Some(0usize), "handle_noop"@))
    } else if name == "setgray"@ {
        Some(("setgray"@, Some(1usize), "handle_noop"@))
    } else if name == "setrgbcolor"@ {
        Some(("setrgbcolor"@, Some(3usize), "handle_noop"@))
    } else if name == "setcmykcolor"@ {
        Some(("setcmykcolor"@, Some(4usize), "handle_noop"@))
    } else if name == "currentpoint"@ {
        Some(("currentpoint"@, Some(0usize), "handle_noop"@))
    } else if name == "moveto"@ {
        Some(("ps_moveto"@, Some(2usize), "handle_noop"@))
    } else if name == "lineto"@ {
        Some(("ps_lineto"@, Some(2usize), "handle_noop"@))
    } else if name == "curveto"@ {
        Some(("ps_curveto"@, Some(6usize), "handle_noop"@))
    } else if name == "closepath"@ {
        Some(("ps_closepath"@, Some(0usize), "handle_noop"@))
    } else if name == "fill"@ {
        Some(("ps_fill"@, Some(0usize), "handle_noop"@))
    } else if name == "stroke"@ {
        Some(("ps_stroke"@, Some(0usize), "handle_noop"@))
    } else if name == "newpath"@ {
        Some(("ps_newpath"@, Some(0usize), "handle_noop"@))
    } else if name == "gsave"@ {
        Some(("ps_gsave"@, Some(0usize), "handle_noop"@))
    } else if name == "grestore"@ {
        Some(("ps_grestore"@, Some(0usize), "handle_noop"@))
    } else if name == "showpage"@ {
        Some(("ps_showpage"@, Some(0usize), "handle_noop"@))
    } else if name == "translate"@ {
        Some(("ps_translate"@, Some(2usize), "handle_noop"@))
    } else if name == "scale"@ {
        Some(("ps_scale"@, Some(2usize), "handle_noop"@))
    } else if name == "rotate"@ {
        Some(("ps_rotate"@, Some(1usize), "handle_noop"@))
    } else if name == "concat"@ {
        Some(("ps_concat"@, None, "handle_noop"@))
    } else if name == "setlinewidth"@ {
        Some(("ps_setlinewidth"@, Some(1usize), "handle_noop"@))
    } else if name == "setlinecap"@ {
        Some(("ps_setlinecap"@, Some(1usize), "handle_noop"@))
    } else if name == "setlinejoin"@ {
        Some(("ps_setlinejoin"@, Some(1usize), "handle_noop"@))
    } else if name == "setmiterlimit"@ {
        Some(("ps_setmiterlimit"@, Some(1usize), "handle_noop"@))
    } else if name == "setdash"@ {
        Some(("ps_setdash"@, None, "handle_noop"@))
    } else if name == "clip"@ {
        Some(("ps_clip"@, Some(0usize), "handle_noop"@))
    } else if name == "image"@ {
        Some(("ps_image"@, None, "handle_noop"@))
    } else if name == "colorimage"@ {
        Some(("ps_colorimage"@, None, "handle_noop"@))
    } else if name == "Ap"@ {
        Some(("opacity_attrs"@, None, "handle_noop"@))
    } else if name == "O"@ {
        Some(("overprint_fill"@, Some(1usize), "handle_noop"@))
    } else if name == "R"@ {
        Some(("overprint_stroke"@, Some(1usize), "handle_noop"@))
    } else if name == "Xw"@ {
        Some(("winding_rule"@, Some(1usize), "handle_noop"@))
    } else if name == "XR"@ {
        Some(("xr_paint_style"@, Some(1usize), "handle_noop"@))
    } else if name == "XW"@ {
        Some(("xw_paint_style"@, Some(2usize), "handle_noop"@))
    } else if name == "Xd"@ {
        Some(("xd_paint_style"@, None, "handle_noop"@))
    } else if name == "Xm"@ {
        Some(("xm_paint_style"@, None, "handle_noop"@))
    } else if name == "Xs"@ {
        Some(("xs_paint_style"@, None, "handle_noop"@))
    } else if name == "Xy"@ {
        Some(("xy_paint_style"@, Some(5usize), "handle_noop"@))
    } else if name == "XS"@ {
        Some(("xs_stroke_style"@, None, "handle_noop"@))
    } else if name == "Ae"@ {
        Some(("appearance_end"@, Some(1usize), "handle_appearance_end"@))
    } else if name == "AE"@ {
        Some(("appearance_expand"@, Some(1usize), "handle_noop"@))
    } else if name == "As"@ {
        Some(("appearance_style"@, Some(1usize), "handle_appearance_style"@))
    } else if name == "A"@ {
        Some(("appearance_a"@, Some(1usize), "handle_noop"@))
    } else if name == "Ar"@ {
        Some(("appearance_ref"@, None, "handle_noop"@))
    } else if name == "TE"@ {
        Some(("text_encoding"@, None, "handle_noop"@))
    } else if name == "TZ"@ {
        Some(("text_zap_font"@, None, "handle_noop"@))
    } else if name == "Np"@ {
        Some(("nonprointing_begin"@, Some(0usize), "handle_noop"@))
    } else if name == "NP"@ {
        Some(("nonprointing_end"@, Some(0usize), "handle_noop"@))
    } else if name == "Pb"@ {
        Some(("pattern_brush_begin"@, None, "handle_noop"@))
    } else if name == "PB"@ {
        Some(("pattern_brush_end"@, Some(0usize), "handle_noop"@))
    } else if name == "Pc"@ {
        Some(("pattern_color"@, None, "handle_noop"@))
    } else if name == "Pg"@ {
        Some(("pattern_gradient"@, None, "handle_noop"@))
    } else if name == "p"@ {
        Some(("pattern_fill"@, None, "handle_noop"@))
    } else if name == "Bc"@ {
        Some(("blend_color"@, None, "handle_noop"@))
    } else if name == "Bh"@ {
        Some(("blend_highlight"@, None, "handle_noop"@))
    } else if name == "Bn"@ {
        Some(("blend_name"@, None, "handle_noop"@))
    } else if name == "annotatepage"@ {
        Some(("annotate_page"@, None, "handle_noop"@))
    } else if name == ","@ {
        Some(("comma"@, Some(0usize), "handle_noop"@))
    } else if name == ":"@ {
        Some(("colon"@, Some(0usize), "handle_noop"@))
    } else if name == ";"@ {
        Some(("semicolon"@, Some(0usize), "handle_noop"@))
    } else if name == "-"@ {
        Some(("dash_char"@, Some(0usize), "handle_noop"@))
    } else if name == "."@ {
        Some(("dot_char"@, Some(0usize), "handle_noop"@))
    } else {
        None
    }
}

/// Looks `name` up in the operator table.
pub fn get_operator(name: &str) -> (r: Option<&'static OperatorDef>)
    ensures
        match r {
            Some(d) => operator_spec(name@) == Some((d.name@, d.arg_count, d.handler@)),
            None => operator_spec(name@) is None,
        },
{
    if str_equals(name, "m") {
        Some(&OperatorDef { name: "moveto", arg_count: Some(2), handler: "handle_moveto" })
    } else if str_equals(name, "l") {
        Some(&OperatorDef { name: "lineto_smooth", arg_count: Some(2), handler: "handle_lineto" })
    } else if str_equals(name, "L") {
        Some(&OperatorDef { name: "lineto_corner", arg_count: Some(2), handler: "handle_lineto" })
    } else if str_equals(name, "c") {
        Some(&OperatorDef { name: "curveto_smooth", arg_count: Some(6), handler: "handle_curveto" })
    } else if str_equals(name, "C") {
        Some(&OperatorDef { name: "curveto_corner", arg_count: Some(6), handler: "handle_curveto" })
    } else if str_equals(name, "v") {
        Some(&OperatorDef { name: "curveto_v_smooth", arg_count: Some(4), handler: "handle_curveto_v" })
    } else if str_equals(name, "V") {
        Some(&OperatorDef { name: "curveto_v_corner", arg_count: Some(4), handler: "handle_curveto_v" })
    } else if str_equals(name, "y") {
        Some(&OperatorDef { name: "curveto_y_smooth", arg_count: Some(4), handler: "handle_curveto_y" })
    } else if str_equals(name, "Y") {
        Some(&OperatorDef { name: "curveto_y_corner", arg_count: Some(4), handler: "handle_curveto_y" })
    } else if str_equals(name, "H") {
        Some(&OperatorDef { name: "closepath", arg_count: Some(0), handler: "handle_closepath" })
    } else if str_equals(name, "N") {
        Some(&OperatorDef { name: "path_noop_open", arg_count: Some(0), handler: "handle_render" })
    } else if str_equals(name, "n") {
        Some(&OperatorDef { name: "path_noop_closed", arg_count: Some(0), handler: "handle_render" })
    } else if str_equals(name, "F") {
        Some(&OperatorDef { name: "fill_open", arg_count: Some(0), handler: "handle_render" })
    } else if str_equals(name, "f") {
        Some(&OperatorDef { name: "fill_closed", arg_count: Some(0), handler: "handle_render" })
    } else if str_equals(name, "S") {
        Some(&OperatorDef { name: "stroke_open", arg_count: Some(0), handler: "handle_render" })
    } else if str_equals(name, "s") {
        Some(&OperatorDef { name: "stroke_closed", arg_count: Some(0), handler: "handle_render" })
    } else if str_equals(name, "B") {
        Some(&OperatorDef { name: "fill_stroke_open", arg_count: Some(0), handler: "handle_render" })
    } else if str_equals(name, "b") {
        Some(&OperatorDef { name: "fill_stroke_closed", arg_count: Some(0), handler: "handle_render" })
    } else if str_equals(name, "g") {
        Some(&OperatorDef { name: "gray_fill", arg_count: Some(1), handler: "handle_gray_fill" })
    } else if str_equals(name, "G") {
        Some(&OperatorDef { name: "gray_stroke", arg_count: Some(1), handler: "handle_gray_stroke" })
    } else if str_equals(name, "k") {
        Some(&OperatorDef { name: "cmyk_fill", arg_count: Some(4), handler: "handle_cmyk_fill" })
    } else if str_equals(name, "K") {
        Some(&OperatorDef { name: "cmyk_stroke", arg_count: Some(4), handler: "handle_cmyk_stroke" })
    } else if str_equals(name, "Xa") {
        Some(&OperatorDef { name: "rgb_fill", arg_count: Some(3), handler: "handle_rgb_fill" })
    } else if str_equals(name, "XA") {
        Some(&OperatorDef { name: "rgb_stroke", arg_count: Some(3), handler: "handle_rgb_stroke" })
    } else if str_equals(name, "x") {
        Some(&OperatorDef { name: "spot_fill", arg_count: None, handler: "handle_spot_fill" })
    } else if str_equals(name, "X") {
        Some(&OperatorDef { name: "spot_stroke", arg_count: None, handler: "handle_spot_stroke" })
    } else if str_equals(name, "Xx") {
        Some(&OperatorDef { name: "custom_fill", arg_count: None, handler: "handle_custom_fill" })
    } else if str_equals(name, "XX") {
        Some(&OperatorDef { name: "custom_stroke", arg_count: None, handler: "handle_custom_stroke" })
    } else if str_equals(name, "w") {
        Some(&OperatorDef { name: "line_width", arg_count: Some(1), handler: "handle_line_width" })
    } else if str_equals(name, "J") {
        Some(&OperatorDef { name: "line_cap", arg_count: Some(1), handler: "handle_line_cap" })
    } else if str_equals(name, "j") {
        Some(&OperatorDef { name: "line_join", arg_count: Some(1), handler: "handle_line_join" })
    } else if str_equals(name, "M") {
        Some(&OperatorDef { name: "miter_limit", arg_count: Some(1), handler: "handle_miter_limit" })
    } else if str_equals(name, "d") {
        Some(&OperatorDef { name: "dash", arg_count: None, handler: "handle_dash" })
    } else if str_equals(name, "i") {
        Some(&OperatorDef { name: "flatness", arg_count: Some(1), handler: "handle_noop" })
    } else if str_equals(name, "D") {
        Some(&OperatorDef { name: "setdash_ai", arg_count: None, handler: "handle_dash" })
    } else if str_equals(name, "q") {
        Some(&OperatorDef { name: "gsave", arg_count: Some(0), handler: "handle_gsave" })
    } else if str_equals(name, "Q") {
        Some(&OperatorDef { name: "grestore", arg_count: Some(0), handler: "handle_grestore" })
    } else if str_equals(name, "W") {
        Some(&OperatorDef { name: "clip", arg_count: Some(0), handler: "handle_clip" })
    } else if str_equals(name, "cm") {
        Some(&OperatorDef { name: "concat_matrix", arg_count: Some(6), handler: "handle_concat_matrix" })
    } else if str_equals(name, "u") {
        Some(&OperatorDef { name: "begin_group", arg_count: Some(0), handler: "handle_begin_group" })
    } else if str_equals(name, "U") {
        Some(&OperatorDef { name: "end_group", arg_count: Some(0), handler: "handle_end_group" })
    } else if str_equals(name, "*u") {
        Some(&OperatorDef { name: "begin_compound", arg_count: Some(0), handler: "handle_begin_compound" })
    } else if str_equals(name, "*U") {
        Some(&OperatorDef { name: "end_compound", arg_count: Some(0), handler: "handle_end_compound" })
    } else if str_equals(name, "Lb") {
        Some(&OperatorDef { name: "begin_layer", arg_count: None, handler: "handle_begin_layer" })
    } else if str_equals(name, "LB") {
        Some(&OperatorDef { name: "end_layer", arg_count: Some(0), handler: "handle_end_layer" })
    } else if str_equals(name, "Ln") {
        Some(&OperatorDef { name: "layer_name", arg_count: Some(1), handler: "handle_layer_name" })
    } else if str_equals(name, "To") {
        Some(&OperatorDef { name: "begin_text", arg_count: Some(1), handler: "handle_begin_text" })
    } else if str_equals(name, "TO") {
        Some(&OperatorDef { name: "end_text", arg_count: Some(0), handler: "handle_end_text" })
    } else if str_equals(name, "Tp") {
        Some(&OperatorDef { name: "text_path", arg_count: Some(6), handler: "handle_text_path" })
    } else if str_equals(name, "TP") {
        Some(&OperatorDef { name: "end_text_path", arg_count: Some(0), handler: "handle_end_text_path" })
    } else if str_equals(name, "Tx") {
        Some(&OperatorDef { name: "text_render", arg_count: Some(1), handler: "handle_text_render" })
    } else if str_equals(name, "TX") {
        Some(&OperatorDef { name: "text_render_end", arg_count: Some(0), handler: "handle_noop" })
    } else if str_equals(name, "Tf") {
        Some(&OperatorDef { name: "text_font", arg_count: Some(2), handler: "handle_text_font" })
    } else if str_equals(name, "Tj") {
        Some(&OperatorDef { name: "text_show", arg_count: Some(1), handler: "handle_text_render" })
    } else if str_equals(name, "TJ") {
        Some(&OperatorDef { name: "text_show_kerned", arg_count: None, handler: "handle_noop" })
    } else if str_equals(name, "Tk") {
        Some(&OperatorDef { name: "text_tracking", arg_count: Some(2), handler: "handle_noop" })
    } else if str_equals(name, "Tc") {
        Some(&OperatorDef { name: "text_char_spacing", arg_count: Some(1), handler: "handle_noop" })
    } else if str_equals(name, "Tw") {
        Some(&OperatorDef { name: "text_word_spacing", arg_count: Some(1), handler: "handle_noop" })
    } else if str_equals(name, "Ts") {
        Some(&OperatorDef { name: "text_rise", arg_count: Some(1), handler: "handle_noop" })
    } else if str_equals(name, "Ti") {
        Some(&OperatorDef { name: "text_indent", arg_count: Some(1), handler: "handle_noop" })
    } else if str_equals(name, "Tz") {
        Some(&OperatorDef { name: "text_horiz_scale", arg_count: Some(1), handler: "handle_noop" })
    } else if str_equals(name, "TA") {
        Some(&OperatorDef { name: "text_alignment", arg_count: None, handler: "handle_noop" })
    } else if str_equals(name, "Tq") {
        Some(&OperatorDef { name: "text_hanging_punct", arg_count: None, handler: "handle_noop" })
    } else if str_equals(name, "Bb") {
        Some(&OperatorDef { name: "begin_gradient", arg_count: Some(1), handler: "handle_begin_gradient" })
    } else if str_equals(name, "BB") {
        Some(&OperatorDef { name: "end_gradient", arg_count: Some(0), handler: "handle_end_gradient" })
    } else if str_equals(name, "Bd") {
        Some(&OperatorDef { name: "begin_gradient_def", arg_count: None, handler: "handle_begin_gradient_def" })
    } else if str_equals(name, "BD") {
        Some(&OperatorDef { name: "end_gradient_def", arg_count: Some(0), handler: "handle_end_gradient_def" })
    } else if str_equals(name, "Bg") {
        Some(&OperatorDef { name: "gradient_geometry", arg_count: None, handler: "handle_gradient_geometry" })
    } else if str_equals(name, "Bs") {
        Some(&OperatorDef { name: "gradient_stop", arg_count: None, handler: "handle_gradient_stop" })
    } else if str_equals(name, "BR") {
        Some(&OperatorDef { name: "gradient_ramp", arg_count: None, handler: "handle_noop" })
    } else if str_equals(name, "Bm") {
        Some(&OperatorDef { name: "gradient_midpoint", arg_count: None, handler: "handle_noop" })
    } else if str_equals(name, "E") {
        Some(&OperatorDef { name: "begin_pattern", arg_count: None, handler: "handle_noop" })
    } else if str_equals(name, "e") {
        Some(&OperatorDef { name: "end_pattern", arg_count: Some(0), handler: "handle_noop" })
    } else if str_equals(name, "AI5_SetPalette") {
        Some(&OperatorDef { name: "set_palette", arg_count: None, handler: "handle_noop" })
    } else if str_equals(name, "XI") {
        Some(&OperatorDef { name: "raster_image", arg_count: None, handler: "handle_raster_image" })
    } else if str_equals(name, "'") {
        Some(&OperatorDef { name: "placed_file", arg_count: None, handler: "handle_noop" })
    } else if str_equals(name, "Adobe_Illustrator_AI5") {
        Some(&OperatorDef { name: "ai5_procset", arg_count: Some(1), handler: "handle_noop" })
    } else if str_equals(name, "Adobe_ctte") {
        Some(&OperatorDef { name: "ctte_procset", arg_count: None, handler: "handle_noop" })
    } else if str_equals(name, "Adobe_level2_AI5") {
        Some(&OperatorDef { name: "level2_procset", arg_count: None, handler: "handle_noop" })
    } else if str_equals(name, "Adobe_ColorImage_AI6") {
        Some(&OperatorDef { name: "colorimage_procset", arg_count: None, handler: "handle_noop" })
    } else if str_equals(name, "Adobe_shading_AI8") {
        Some(&OperatorDef { name: "shading_procset", arg_count: None, handler: "handle_noop" })
    } else if str_equals(name, "pop") {
        Some(&OperatorDef { name: "pop", arg_count: Some(0), handler: "handle_pop" })
    } else if str_equals(name, "def") {
        Some(&OperatorDef { name: "define", arg_count: Some(0), handler: "handle_noop" })
    } else if str_equals(name, "exec") {
        Some(&OperatorDef { name: "exec", arg_count: Some(0), handler: "handle_noop" })
    } else if str_equals(name, "null") {
        Some(&OperatorDef { name: "null", arg_count: Some(0), handler: "handle_null" })
    } else if str_equals(name, "true") {
        Some(&OperatorDef { name: "true", arg_count: Some(0), handler: "handle_true" })
    } else if str_equals(name, "false") {
        Some(&OperatorDef { name: "false", arg_count: Some(0), handler: "handle_false" })
    } else if str_equals(name, "bind") {
        Some(&OperatorDef { name: "bind", arg_count: Some(0), handler: "handle_noop" })
    } else if str_equals(name, "dup") {
        Some(&OperatorDef { name: "dup", arg_count: Some(0), handler: "handle_dup" })
    } else if str_equals(name, "exch") {
        Some(&OperatorDef { name: "exch", arg_count: Some(0), handler: "handle_exch" })
    } else if str_equals(name, "copy") {
        Some(&OperatorDef { name: "copy", arg_count: Some(1), handler: "handle_noop" })
    } else if str_equals(name, "index") {
        Some(&OperatorDef { name: "index", arg_count: Some(1), handler: "handle_noop" })
    } else if str_equals(name, "roll") {
        Some(&OperatorDef { name: "roll", arg_count: Some(2), handler: "handle_noop" })
    } else if str_equals(name, "cleartomark") {
        Some(&OperatorDef { name: "cleartomark", arg_count: Some(0), handler: "handle_noop" })
    } else if str_equals(name, "counttomark") {
        Some(&OperatorDef { name: "counttomark", arg_count: Some(0), handler: "handle_noop" })
    } else if str_equals(name, "mark") {
        Some(&OperatorDef { name: "mark", arg_count: Some(0), handler: "handle_noop" })
    } else if str_equals(name, "setgray") {
        Some(&OperatorDef { name: "setgray", arg_count: Some(1), handler: "handle_noop" })
    } else if str_equals(name, "setrgbcolor") {
        Some(&OperatorDef { name: "setrgbcolor", arg_count: Some(3), handler: "handle_noop" })
    } else if str_equals(name, "setcmykcolor") {
        Some(&OperatorDef { name: "setcmykcolor", arg_count: Some(4), handler: "handle_noop" })
    } else if str_equals(name, "currentpoint") {
        Some(&OperatorDef { name: "currentpoint", arg_count: Some(0), handler: "handle_noop" })
    } else if str_equals(name, "moveto") {
        Some(&OperatorDef { name: "ps_moveto", arg_count: Some(2), handler: "handle_noop" })
    } else if str_equals(name, "lineto") {
        Some(&OperatorDef { name: "ps_lineto", arg_count: Some(2), handler: "handle_noop" })
    } else if str_equals(name, "curveto") {
        Some(&OperatorDef { name: "ps_curveto", arg_count: Some(6), handler: "handle_noop" })
    } else if str_equals(name, "closepath") {
        Some(&OperatorDef { name: "ps_closepath", arg_count: Some(0), handler: "handle_noop" })
    } else if str_equals(name, "fill") {
        Some(&OperatorDef { name: "ps_fill", arg_count: Some(0), handler: "handle_noop" })
    } else if str_equals(name, "stroke") {
        Some(&OperatorDef { name: "ps_stroke", arg_count: Some(0), handler: "handle_noop" })
    } else if str_equals(name, "newpath") {
        Some(&OperatorDef { name: "ps_newpath", arg_count: Some(0), handler: "handle_noop" })
    } else if str_equals(name, "gsave") {
        Some(&OperatorDef { name: "ps_gsave", arg_count: Some(0), handler: "handle_noop" })
    } else if str_equals(name, "grestore") {
        Some(&OperatorDef { name: "ps_grestore", arg_count: Some(0), handler: "handle_noop" })
    } else if str_equals(name, "showpage") {
        Some(&OperatorDef { name: "ps_showpage", arg_count: Some(0), handler: "handle_noop" })
    } else if str_equals(name, "translate") {
        Some(&OperatorDef { name: "ps_translate", arg_count: Some(2), handler: "handle_noop" })
    } else if str_equals(name, "scale") {
        Some(&OperatorDef { name: "ps_scale", arg_count: Some(2), handler: "handle_noop" })
    } else if str_equals(name, "rotate") {
        Some(&OperatorDef { name: "ps_rotate", arg_count: Some(1), handler: "handle_noop" })
    } else if str_equals(name, "concat") {
        Some(&OperatorDef { name: "ps_concat", arg_count: None, handler: "handle_noop" })
    } else if str_equals(name, "setlinewidth") {
        Some(&OperatorDef { name: "ps_setlinewidth", arg_count: Some(1), handler: "handle_noop" })
    } else if str_equals(name, "setlinecap") {
        Some(&OperatorDef { name: "ps_setlinecap", arg_count: Some(1), handler: "handle_noop" })
    } else if str_equals(name, "setlinejoin") {
        Some(&OperatorDef { name: "ps_setlinejoin", arg_count: Some(1), handler: "handle_noop" })
    } else if str_equals(name, "setmiterlimit") {
        Some(&OperatorDef { name: "ps_setmiterlimit", arg_count: Some(1), handler: "handle_noop" })
    } else if str_equals(name, "setdash") {
        Some(&OperatorDef { name: "ps_setdash", arg_count: None, handler: "handle_noop" })
    } else if str_equals(name, "clip") {
        Some(&OperatorDef { name: "ps_clip", arg_count: Some(0), handler: "handle_noop" })
    } else if str_equals(name, "image") {
        Some(&OperatorDef { name: "ps_image", arg_count: None, handler: "handle_noop" })
    } else if str_equals(name, "colorimage") {
        Some(&OperatorDef { name: "ps_colorimage", arg_count: None, handler: "handle_noop" })
    } else if str_equals(name, "Ap") {
        Some(&OperatorDef { name: "opacity_attrs", arg_count: None, handler: "handle_noop" })
    } else if str_equals(name, "O") {
        Some(&OperatorDef { name: "overprint_fill", arg_count: Some(1), handler: "handle_noop" })
    } else if str_equals(name, "R") {
        Some(&OperatorDef { name: "overprint_stroke", arg_count: Some(1), handler: "handle_noop" })
    } else if str_equals(name, "Xw") {
        Some(&OperatorDef { name: "winding_rule", arg_count: Some(1), handler: "handle_noop" })
    } else if str_equals(name, "XR") {
        Some(&OperatorDef { name: "xr_paint_style", arg_count: Some(1), handler: "handle_noop" })
    } else if str_equals(name, "XW") {
        Some(&OperatorDef { name: "xw_paint_style", arg_count: Some(2), handler: "handle_noop" })
    } else if str_equals(name, "Xd") {
        Some(&OperatorDef { name: "xd_paint_style", arg_count: None, handler: "handle_noop" })
    } else if str_equals(name, "Xm") {
        Some(&OperatorDef { name: "xm_paint_style", arg_count: None, handler: "handle_noop" })
    } else if str_equals(name, "Xs") {
        Some(&OperatorDef { name: "xs_paint_style", arg_count: None, handler: "handle_noop" })
    } else if str_equals(name, "Xy") {
        Some(&OperatorDef { name: "xy_paint_style", arg_count: Some(5), handler: "handle_noop" })
    } else if str_equals(name, "XS") {
        Some(&OperatorDef { name: "xs_stroke_style", arg_count: None, handler: "handle_noop" })
    } else if str_equals(name, "Ae") {
        Some(&OperatorDef { name: "appearance_end", arg_count: Some(1), handler: "handle_appearance_end" })
    } else if str_equals(name, "AE") {
        Some(&OperatorDef { name: "appearance_expand", arg_count: Some(1), handler: "handle_noop" })
    } else if str_equals(name, "As") {
        Some(&OperatorDef { name: "appearance_style", arg_count: Some(1), handler: "handle_appearance_style" })
    } else if str_equals(name, "A") {
        Some(&OperatorDef { name: "appearance_a", arg_count: Some(1), handler: "handle_noop" })
    } else if str_equals(name, "Ar") {
        Some(&OperatorDef { name: "appearance_ref", arg_count: None, handler: "handle_noop" })
    } else if str_equals(name, "TE") {
        Some(&OperatorDef { name: "text_encoding", arg_count: None, handler: "handle_noop" })
    } else if str_equals(name, "TZ") {
        Some(&OperatorDef { name: "text_zap_font", arg_count: None, handler: "handle_noop" })
    } else if str_equals(name, "Np") {
        Some(&OperatorDef { name: "nonprointing_begin", arg_count: Some(0), handler: "handle_noop" })
    } else if str_equals(name, "NP") {
        Some(&OperatorDef { name: "nonprointing_end", arg_count: Some(0), handler: "handle_noop" })
    } else if str_equals(name, "Pb") {
        Some(&OperatorDef { name: "pattern_brush_begin", arg_count: None, handler: "handle_noop" })
    } else if str_equals(name, "PB") {
        Some(&OperatorDef { name: "pattern_brush_end", arg_count: Some(0), handler: "handle_noop" })
    } else if str_equals(name, "Pc") {
        Some(&OperatorDef { name: "pattern_color", arg_count: None, handler: "handle_noop" })
    } else if str_equals(name, "Pg") {
        Some(&OperatorDef { name: "pattern_gradient", arg_count: None, handler: "handle_noop" })
    } else if str_equals(name, "p") {
        Some(&OperatorDef { name: "pattern_fill", arg_count: None, handler: "handle_noop" })
    } else if str_equals(name, "Bc") {
        Some(&OperatorDef { name: "blend_color", arg_count: None, handler: "handle_noop" })
    } else if str_equals(name, "Bh") {
        Some(&OperatorDef { name: "blend_highlight", arg_count: None, handler: "handle_noop" })
    } else if str_equals(name, "Bn") {
        Some(&OperatorDef { name: "blend_name", arg_count: None, handler: "handle_noop" })
    } else if str_equals(name, "annotatepage") {
        Some(&OperatorDef { name: "annotate_page", arg_count: None, handler: "handle_noop" })
    } else if str_equals(name, ",") {
        Some(&OperatorDef { name: "comma", arg_count: Some(0), handler: "handle_noop" })
    } else if str_equals(name, ":") {
        Some(&OperatorDef { name: "colon", arg_count: Some(0), handler: "handle_noop" })
    } else if str_equals(name, ";") {
        Some(&OperatorDef { name: "semicolon", arg_count: Some(0), handler: "handle_noop" })
    } else if str_equals(name, "-") {
        Some(&OperatorDef { name: "dash_char", arg_count: Some(0), handler: "handle_noop" })
    } else if str_equals(name, ".") {
        Some(&OperatorDef { name: "dot_char", arg_count: Some(0), handler: "handle_noop" })
    } else {
        None
    }
}

} // verus!

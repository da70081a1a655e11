//! Accelerator kernel assembly: splices the selected formula, color and
//! shadow fragments into one compute-kernel source.
//!
//! Assembly is pure text composition, specified exactly, so it can be
//! tested without any device: a template/fragment mismatch shows up as a
//! wrong string, not as a driver error.  Numeric parameters arrive
//! already rendered as text, so the kernel text is a function of its
//! parts alone.

use vstd::prelude::*;
use vstd::string::StringExecFns;

use crate::colors::color::ColorKind;
use crate::colors::color::color_kernel;
use crate::colors::color::color_kernel_fragment;
use crate::colors::shadows::ShadowKind;
use crate::colors::shadows::shadow_kernel;
use crate::colors::shadows::shadow_kernel_fragment;
use crate::math::formula::GeneratorKind;
use crate::math::formula::generator_kernel;
use crate::math::formula::kernel_fragment;

verus! {

/// The kernel fragment that turns Mandelbrot mode on: the per-pixel
/// coordinate becomes the iterated constant.
pub open spec fn julia_changes_spec(julia: bool) -> Seq<char> {
    if julia {
        ""@
    } else {
        "c = z;"@
    }
}

/// The complete kernel source for one run: the shared skeleton with the
/// selected fragments and the rendered run parameters spliced in.
pub open spec fn kernel_source_spec(
    gk: GeneratorKind,
    ck: ColorKind,
    sk: ShadowKind,
    width: Seq<char>,
    height: Seq<char>,
    travel_distance: Seq<char>,
    rate_of_color_change: Seq<char>,
    background: Seq<char>,
    foreground: Seq<char>,
    max_i: Seq<char>,
    c_init: Seq<char>,
    julia: bool,
) -> Seq<char> {
    "#version 450\nlayout(local_size_x = 16, local_size_y = 16) in;\nlayout(set = 0, binding = 0, rgba8) uniform writeonly image2D img;\nlayout(push_constant) uniform PushConstants {\n    float factor_x;\n    float factor_y;\n    float offset_x;\n    float offset_y;\n    uint amnt_of_lines;\n} pc;\n\nconst uint width = "@
        + width + ";\nconst uint height = "@ + height + ";\nconst bool travel_distance = "@
        + travel_distance + ";\nconst float rate_of_color_change = "@ + rate_of_color_change
        + ";\nconst vec4 background = vec4("@ + background + ");\nconst vec4 foreground = vec4("@
        + foreground + ");\nconst float max_i = "@ + max_i
        + ";\n\nstruct Complex { vec2 data; };\nComplex add(Complex a, Complex b) { return Complex(a.data + b.data); }\nComplex mult(Complex a, Complex b) { return Complex(vec2(a.data.x * b.data.x - a.data.y * b.data.y, a.data.x * b.data.y + a.data.y * b.data.x)); }\n\nfloat get_color(float n) {\n    "@
        + color_kernel(ck) + "\n}\n\nfloat get_shadow(float n) {\n    "@ + shadow_kernel(sk)
        + "\n}\n\nvoid main() {\n    uint x = gl_GlobalInvocationID.x;\n    uint y = gl_GlobalInvocationID.y;\n    if (x >= width || y >= pc.amnt_of_lines) { return; }\n    Complex c = Complex(vec2("@
        + c_init
        + "));\n    Complex z = Complex(vec2(\n        pc.factor_x * float(x) + pc.offset_x,\n        pc.factor_y * float(y) + pc.offset_y));\n    "@
        + julia_changes_spec(julia)
        + "\n    Complex old_z = z;\n    float n = 0.0;\n    for (float i = 0.0; i < max_i; i += 1.0) {\n        if (dot(z.data, z.data) > 4.0) { break; }\n        "@
        + generator_kernel(gk)
        + "\n        if (travel_distance) {\n            n += distance(z.data, old_z.data);\n            old_z = z;\n        } else {\n            n += 1.0;\n        }\n    }\n    vec4 color;\n    if (n == 0.0) {\n        color = background;\n    } else if (n >= max_i && !travel_distance) {\n        color = foreground;\n    } else {\n        float hue = mod(get_color(n) * rate_of_color_change, 360.0);\n        float value = mod(get_shadow(n), 360.0);\n        float cc = value;\n        float xx = cc * (1.0 - abs(mod(hue / 60.0, 2.0) - 1.0));\n        vec3 rgb;\n        if (hue < 60.0) { rgb = vec3(cc, xx, 0.0); }\n        else if (hue < 120.0) { rgb = vec3(xx, cc, 0.0); }\n        else if (hue < 180.0) { rgb = vec3(0.0, cc, xx); }\n        else if (hue < 240.0) { rgb = vec3(0.0, xx, cc); }\n        else if (hue < 300.0) { rgb = vec3(xx, 0.0, cc); }\n        else { rgb = vec3(cc, 0.0, xx); }\n        color = vec4(rgb, 1.0);\n    }\n    imageStore(img, ivec2(int(x), int(y)), color);\n}\n"@
}

/// Assembles the kernel source for one run from the catalog fragments
/// and the rendered parameters.
pub fn assemble_kernel(
    gk: GeneratorKind,
    ck: ColorKind,
    sk: ShadowKind,
    width: &str,
    height: &str,
    travel_distance: &str,
    rate_of_color_change: &str,
    background: &str,
    foreground: &str,
    max_i: &str,
    c_init: &str,
    julia: bool,
) -> (r: String)
    ensures
        r@ == kernel_source_spec(
            gk,
            ck,
            sk,
            width@,
            height@,
            travel_distance@,
            rate_of_color_change@,
            background@,
            foreground@,
            max_i@,
            c_init@,
            julia,
        ),
{
    let mut out = String::from_str(
        "#version 450\nlayout(local_size_x = 16, local_size_y = 16) in;\nlayout(set = 0, binding = 0, rgba8) uniform writeonly image2D img;\nlayout(push_constant) uniform PushConstants {\n    float factor_x;\n    float factor_y;\n    float offset_x;\n    float offset_y;\n    uint amnt_of_lines;\n} pc;\n\nconst uint width = ",
    );
    out.append(width);
    out.append(";\nconst uint height = ");
    out.append(height);
    out.append(";\nconst bool travel_distance = ");
    out.append(travel_distance);
    out.append(";\nconst float rate_of_color_change = ");
    out.append(rate_of_color_change);
    out.append(";\nconst vec4 background = vec4(");
    out.append(background);
    out.append(");\nconst vec4 foreground = vec4(");
    out.append(foreground);
    out.append(");\nconst float max_i = ");
    out.append(max_i);
    out.append(
        ";\n\nstruct Complex { vec2 data; };\nComplex add(Complex a, Complex b) { return Complex(a.data + b.data); }\nComplex mult(Complex a, Complex b) { return Complex(vec2(a.data.x * b.data.x - a.data.y * b.data.y, a.data.x * b.data.y + a.data.y * b.data.x)); }\n\nfloat get_color(float n) {\n    ",
    );
    out.append(color_kernel_fragment(ck).as_str());
    out.append("\n}\n\nfloat get_shadow(float n) {\n    ");
    out.append(shadow_kernel_fragment(sk).as_str());
    out.append(
        "\n}\n\nvoid main() {\n    uint x = gl_GlobalInvocationID.x;\n    uint y = gl_GlobalInvocationID.y;\n    if (x >= width || y >= pc.amnt_of_lines) { return; }\n    Complex c = Complex(vec2(",
    );
    out.append(c_init);
    out.append(
        "));\n    Complex z = Complex(vec2(\n        pc.factor_x * float(x) + pc.offset_x,\n        pc.factor_y * float(y) + pc.offset_y));\n    ",
    );
    if julia {
        out.append("");
    } else {
        out.append("c = z;");
    }
    out.append(
        "\n    Complex old_z = z;\n    float n = 0.0;\n    for (float i = 0.0; i < max_i; i += 1.0) {\n        if (dot(z.data, z.data) > 4.0) { break; }\n        ",
    );
    out.append(kernel_fragment(gk).as_str());
    out.append(
        "\n        if (travel_distance) {\n            n += distance(z.data, old_z.data);\n            old_z = z;\n        } else {\n            n += 1.0;\n        }\n    }\n    vec4 color;\n    if (n == 0.0) {\n        color = background;\n    } else if (n >= max_i && !travel_distance) {\n        color = foreground;\n    } else {\n        float hue = mod(get_color(n) * rate_of_color_change, 360.0);\n        float value = mod(get_shadow(n), 360.0);\n        float cc = value;\n        float xx = cc * (1.0 - abs(mod(hue / 60.0, 2.0) - 1.0));\n        vec3 rgb;\n        if (hue < 60.0) { rgb = vec3(cc, xx, 0.0); }\n        else if (hue < 120.0) { rgb = vec3(xx, cc, 0.0); }\n        else if (hue < 180.0) { rgb = vec3(0.0, cc, xx); }\n        else if (hue < 240.0) { rgb = vec3(0.0, xx, cc); }\n        else if (hue < 300.0) { rgb = vec3(xx, 0.0, cc); }\n        else { rgb = vec3(cc, 0.0, xx); }\n        color = vec4(rgb, 1.0);\n    }\n    imageStore(img, ivec2(int(x), int(y)), color);\n}\n",
    );
    out
}

} // verus!

//! The plan as the arguments of the compositor's command line: one input
//! per asset, and one overlay filter per operation, each laid over the
//! output of the one before.

use vstd::prelude::*;
use vstd::string::StringExecFns;
use crate::decimal::{
    decimal_text,
    fixed_text,
    join,
    joined_text,
    padded_text,
    push_decimal,
    push_fixed,
    push_padded,
    texts_of,
};
use crate::position::{anchor_coords, coords_of};
use crate::projection::Canvas;
use crate::schedule::{AnchorPosition, AssetRef, CompositionOp, TimeWindow};

verus! {

/// The name of the file that holds an asset.
pub open spec fn asset_file(asset: AssetRef) -> Seq<char> {
    match asset {
        AssetRef::SpeedometerFrame(i) => "frame_"@ + padded_text(i as nat, 5) + ".png"@,
        AssetRef::StatsFrame(i) => "stats_frame_"@ + padded_text(i as nat, 5) + ".png"@,
        AssetRef::MapBase => "track_base.png"@,
        AssetRef::MarkerDot => "marker_dot.png"@,
    }
}

/// The path of an asset in the working directory of a job.
pub open spec fn asset_path_text(arena: Seq<char>, asset: AssetRef) -> Seq<char> {
    arena + "/"@ + asset_file(asset)
}

/// The path of an asset in the working directory of a job.
pub fn asset_path(arena: &str, asset: AssetRef) -> (path: String)
    ensures
        path@ == asset_path_text(arena@, asset),
{
    let mut path = String::new();
    path.append(arena);
    path.append("/");
    match asset {
        AssetRef::SpeedometerFrame(i) => {
            path.append("frame_");
            push_padded(&mut path, i as u64, 5);
            path.append(".png");
        },
        AssetRef::StatsFrame(i) => {
            path.append("stats_frame_");
            push_padded(&mut path, i as u64, 5);
            path.append(".png");
        },
        AssetRef::MapBase => {
            path.append("track_base.png");
        },
        AssetRef::MarkerDot => {
            path.append("marker_dot.png");
        },
    }
    path
}

/// The number of the input that holds the marker, among the first `n`
/// operations, if one of them shows it. The video is input 0.
pub open spec fn marker_input(ops: Seq<CompositionOp>, n: int) -> Option<int>
    decreases n,
{
    if n <= 0 {
        None
    } else {
        match marker_input(ops, n - 1) {
            Some(i) => Some(i),
            None => if ops[n - 1].asset == AssetRef::MarkerDot {
                Some(1 + inputs_before(ops, n - 1))
            } else {
                None
            },
        }
    }
}

/// How many inputs the first `n` operations need: one each, but one for
/// all that show the marker.
pub open spec fn inputs_before(ops: Seq<CompositionOp>, n: int) -> int
    decreases n,
{
    if n <= 0 {
        0
    } else if ops[n - 1].asset == AssetRef::MarkerDot && marker_input(ops, n - 1) is Some {
        inputs_before(ops, n - 1)
    } else {
        inputs_before(ops, n - 1) + 1
    }
}

/// The number of the input that operation `k` lays over the video.
pub open spec fn input_of(ops: Seq<CompositionOp>, k: int) -> int {
    if ops[k].asset == AssetRef::MarkerDot {
        marker_input(ops, k + 1).unwrap()
    } else {
        1 + inputs_before(ops, k)
    }
}

/// The paths of the inputs that the first `n` operations need, in the
/// order of their numbers, from input 1 on.
pub open spec fn input_paths(arena: Seq<char>, ops: Seq<CompositionOp>, n: int) -> Seq<Seq<char>>
    decreases n,
{
    if n <= 0 {
        Seq::empty()
    } else if ops[n - 1].asset == AssetRef::MarkerDot && marker_input(ops, n - 1) is Some {
        input_paths(arena, ops, n - 1)
    } else {
        input_paths(arena, ops, n - 1).push(asset_path_text(arena, ops[n - 1].asset))
    }
}

/// The label of what operation `k` puts out.
pub open spec fn label_text(k: int) -> Seq<char> {
    "[v"@ + decimal_text(k as nat) + "]"@
}

/// The label of what operation `k` lays its asset over: the video for the
/// first, the output of the one before for any other.
pub open spec fn base_text(k: int) -> Seq<char> {
    if k <= 0 {
        "[0:v]"@
    } else {
        label_text(k - 1)
    }
}

/// The column at which a layer of the size of the canvas sits in a corner.
pub open spec fn corner_x(anchor: AnchorPosition, canvas: Canvas) -> Seq<char> {
    match anchor {
        AnchorPosition::TopLeft => "10"@,
        AnchorPosition::BottomLeft => "10"@,
        _ => "main_w-"@ + decimal_text(canvas.width as nat) + "-10"@,
    }
}

/// The row at which a layer of the size of the canvas sits in a corner.
pub open spec fn corner_y(anchor: AnchorPosition, canvas: Canvas) -> Seq<char> {
    match anchor {
        AnchorPosition::TopLeft => "10"@,
        AnchorPosition::TopRight => "10"@,
        _ => "main_h-"@ + decimal_text(canvas.height as nat) + "-10"@,
    }
}

/// Where an operation places its asset: in its corner, or at its offset
/// within the layer of the size of the canvas that sits in the corner.
pub open spec fn place_text(op: CompositionOp, canvas: Canvas) -> Seq<char> {
    match op.offset {
        None => "overlay="@ + coords_of(op.anchor),
        Some(at) => "overlay=x='("@ + corner_x(op.anchor, canvas) + ") + "@ + fixed_text(
            at.x as int,
            2,
        ) + "':y='("@ + corner_y(op.anchor, canvas) + ") + "@ + fixed_text(at.y as int, 2) + "'"@,
    }
}

/// When an operation shows its asset, in seconds of the video: nothing for
/// the whole video.
pub open spec fn enable_text(window: Option<TimeWindow>) -> Seq<char> {
    match window {
        None => Seq::empty(),
        Some(w) => ":enable='between(t,"@ + fixed_text(w.start as int, 3) + ","@ + fixed_text(
            w.end as int,
            3,
        ) + ")'"@,
    }
}

/// The filter of operation `k`.
pub open spec fn fragment_text(ops: Seq<CompositionOp>, k: int, canvas: Canvas) -> Seq<char> {
    base_text(k) + "["@ + decimal_text(input_of(ops, k) as nat) + ":v]"@ + place_text(
        ops[k],
        canvas,
    ) + enable_text(ops[k].window) + label_text(k)
}

/// The filters of all operations, with `;` between them.
pub open spec fn filter_text(ops: Seq<CompositionOp>, canvas: Canvas) -> Seq<char> {
    joined_text(Seq::new(ops.len(), |k: int| fragment_text(ops, k, canvas)), ";"@)
}

fn push_label(out: &mut String, k: usize)
    ensures
        final(out)@ == old(out)@ + label_text(k as int),
{
    out.append("[v");
    push_decimal(out, k as u64);
    out.append("]");
}

fn push_corner(out: &mut String, anchor: AnchorPosition, canvas: Canvas, row: bool)
    ensures
        final(out)@ == old(out)@ + (if row {
            corner_y(anchor, canvas)
        } else {
            corner_x(anchor, canvas)
        }),
{
    let near = if row {
        match anchor {
            AnchorPosition::TopLeft => true,
            AnchorPosition::TopRight => true,
            _ => false,
        }
    } else {
        match anchor {
            AnchorPosition::TopLeft => true,
            AnchorPosition::BottomLeft => true,
            _ => false,
        }
    };
    if near {
        out.append("10");
    } else {
        if row {
            out.append("main_h-");
            push_decimal(out, canvas.height as u64);
        } else {
            out.append("main_w-");
            push_decimal(out, canvas.width as u64);
        }
        out.append("-10");
    }
}

fn push_place(out: &mut String, op: &CompositionOp, canvas: Canvas)
    ensures
        final(out)@ == old(out)@ + place_text(*op, canvas),
{
    match op.offset {
        None => {
            out.append("overlay=");
            out.append(anchor_coords(op.anchor));
        },
        Some(at) => {
            out.append("overlay=x='(");
            push_corner(out, op.anchor, canvas, false);
            out.append(") + ");
            push_fixed(out, at.x, 2);
            out.append("':y='(");
            push_corner(out, op.anchor, canvas, true);
            out.append(") + ");
            push_fixed(out, at.y, 2);
            out.append("'");
        },
    }
}

fn push_enable(out: &mut String, window: Option<TimeWindow>)
    ensures
        final(out)@ == old(out)@ + enable_text(window),
{
    match window {
        None => {},
        Some(w) => {
            out.append(":enable='between(t,");
            push_fixed(out, w.start, 3);
            out.append(",");
            push_fixed(out, w.end, 3);
            out.append(")'");
        },
    }
}

/// The inputs and the filter of a plan.
pub struct Wiring {
    /// The paths of the inputs from input 1 on.
    pub inputs: Vec<String>,
    /// The filters of the operations, with `;` between them.
    pub filter: String,
}

/// At most one input is needed for each operation.
pub proof fn lemma_inputs_bounded(ops: Seq<CompositionOp>, n: int)
    requires
        0 <= n <= ops.len(),
    ensures
        0 <= inputs_before(ops, n) <= n,
        marker_input(ops, n) is Some ==> 1 <= marker_input(ops, n).unwrap() <= n,
    decreases n,
{
    if n > 0 {
        lemma_inputs_bounded(ops, n - 1);
    }
}

/// The inputs and the filter for the operations of a plan; the assets lie
/// in the working directory `arena`.
pub fn wire(arena: &str, ops: &Vec<CompositionOp>, canvas: Canvas) -> (wiring: Wiring)
    ensures
        texts_of(wiring.inputs@) == input_paths(arena@, ops@, ops.len() as int),
        wiring.filter@ == filter_text(ops@, canvas),
{
    let mut inputs: Vec<String> = Vec::new();
    let mut fragments: Vec<String> = Vec::new();
    let mut marker: Option<usize> = None;
    let mut k: usize = 0;
    while k < ops.len()
        invariant
            k <= ops.len(),
            inputs.len() == inputs_before(ops@, k as int),
            texts_of(inputs@) =~= input_paths(arena@, ops@, k as int),
            match marker {
                Some(i) => marker_input(ops@, k as int) == Some(i as int),
                None => marker_input(ops@, k as int) is None,
            },
            texts_of(fragments@) =~= Seq::new(k as nat, |i: int| fragment_text(ops@, i, canvas)),
        decreases ops.len() - k,
    {
        proof {
            lemma_inputs_bounded(ops@, k as int);
        }
        let op = &ops[k];
        let shared: Option<usize> = match op.asset {
            AssetRef::MarkerDot => marker,
            _ => None,
        };
        let number: usize = match shared {
            Some(i) => i,
            None => {
                inputs.push(asset_path(arena, op.asset));
                let fresh = inputs.len();
                match op.asset {
                    AssetRef::MarkerDot => {
                        marker = Some(fresh);
                    },
                    _ => {},
                }
                fresh
            },
        };
        let mut fragment = String::new();
        if k == 0 {
            fragment.append("[0:v]");
        } else {
            push_label(&mut fragment, k - 1);
        }
        fragment.append("[");
        push_decimal(&mut fragment, number as u64);
        fragment.append(":v]");
        push_place(&mut fragment, op, canvas);
        push_enable(&mut fragment, op.window);
        push_label(&mut fragment, k);
        let ghost made = texts_of(fragments@);
        fragments.push(fragment);
        assert(texts_of(fragments@) =~= made.push(fragment_text(ops@, k as int, canvas)));
        k += 1;
    }
    let filter = join(&fragments, ";");
    Wiring { inputs, filter }
}

/// The arguments around the inputs and the filter: the video first, and
/// after the filter what to keep of the video beside the picture: its
/// sound as it is, and its metadata.
pub open spec fn args_text(
    video: Seq<char>,
    inputs: Seq<Seq<char>>,
    filter: Seq<char>,
    last: Seq<char>,
    output: Seq<char>,
) -> Seq<Seq<char>> {
    seq!["-i"@, video] + Seq::new(
        2 * inputs.len(),
        |i: int|
            if i % 2 == 0 {
                "-i"@
            } else {
                inputs[i / 2]
            },
    ) + seq![
        "-filter_complex"@,
        filter,
        "-map"@,
        last,
        "-map"@,
        "0:a?"@,
        "-c:a"@,
        "copy"@,
        "-map_metadata"@,
        "0"@,
        "-movflags"@,
        "use_metadata_tags"@,
        output,
    ]
}

fn owned(text: &str) -> (s: String)
    ensures
        s@ == text@,
{
    text.to_owned()
}

/// The arguments of the compositor's command line for a plan. None for an
/// empty plan: there is nothing to lay over the video, which is then to be
/// copied as it is.
pub fn compositor_args(
    video: &str,
    arena: &str,
    ops: &Vec<CompositionOp>,
    canvas: Canvas,
    output: &str,
) -> (args: Option<Vec<String>>)
    ensures
        match args {
            Some(a) => ops.len() > 0 && texts_of(a@) == args_text(
                video@,
                input_paths(arena@, ops@, ops.len() as int),
                filter_text(ops@, canvas),
                label_text(ops.len() - 1),
                output@,
            ),
            None => ops.len() == 0,
        },
{
    if ops.len() == 0 {
        return None;
    }
    let wiring = wire(arena, ops, canvas);
    let ghost paths = input_paths(arena@, ops@, ops.len() as int);
    let mut args: Vec<String> = Vec::new();
    args.push(owned("-i"));
    args.push(owned(video));
    let ghost head = texts_of(args@);
    assert(head =~= seq!["-i"@, video@]);
    let mut i: usize = 0;
    while i < wiring.inputs.len()
        invariant
            i <= wiring.inputs.len(),
            texts_of(wiring.inputs@) == paths,
            texts_of(args@) =~= head + Seq::new(
                (2 * i) as nat,
                |j: int|
                    if j % 2 == 0 {
                        "-i"@
                    } else {
                        paths[j / 2]
                    },
            ),
        decreases wiring.inputs.len() - i,
    {
        let ghost before = texts_of(args@);
        args.push(owned("-i"));
        args.push(wiring.inputs[i].clone());
        proof {
            assert(texts_of(args@) =~= before.push("-i"@).push(paths[i as int]));
        }
        i += 1;
    }
    let mut last = String::new();
    push_label(&mut last, ops.len() - 1);
    args.push(owned("-filter_complex"));
    args.push(wiring.filter);
    args.push(owned("-map"));
    args.push(last);
    args.push(owned("-map"));
    args.push(owned("0:a?"));
    args.push(owned("-c:a"));
    args.push(owned("copy"));
    args.push(owned("-map_metadata"));
    args.push(owned("0"));
    args.push(owned("-movflags"));
    args.push(owned("use_metadata_tags"));
    args.push(owned(output));
    Some(args)
}

} // verus!

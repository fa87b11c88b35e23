//! Planning of the per-format encode tasks and the batch outcome policy.
//!
//! Before fan-out, the requested formats are collapsed to one task per
//! distinct format. Each task carries everything its worker needs as a
//! read-only snapshot: the format, the output file name, the background to
//! fill the canvas with, and the byte layout its encoder takes. Tasks are
//! independent: every field of a task is determined by its own format and
//! the shared configuration, and the batch's exit code ignores per-task
//! failures by design.

use crate::color::Color;
use crate::formats::Format;
use crate::formats::dedup_formats;
use crate::formats::dedup_spec;
use crate::formats::extension_spec;
use crate::formats::has_alpha_spec;
use vstd::prelude::*;
use vstd::string::StringExecFns;

verus! {

/// The byte layout handed to an encoder.
#[derive(Clone, Copy, Debug, PartialEq, Eq, Structural)]
pub enum PixelLayout {
    /// Three bytes per pixel, no alpha.
    Rgb8,
    /// Four bytes per pixel, straight or premultiplied RGBA.
    Rgba8,
}

/// The layout a format's encoder takes: RGBA when the format carries an
/// alpha channel, RGB otherwise.
pub open spec fn layout_spec(f: Format) -> PixelLayout {
    if has_alpha_spec(f) {
        PixelLayout::Rgba8
    } else {
        PixelLayout::Rgb8
    }
}

/// The canvas background for a format: an explicit color when the operator
/// gave one, else transparent black for formats with an alpha channel and
/// opaque white for the rest.
pub open spec fn background_spec(f: Format, explicit: Option<Color>) -> Color {
    match explicit {
        Some(c) => c,
        None => if has_alpha_spec(f) {
            Color { r: 0, g: 0, b: 0, a: 0 }
        } else {
            Color { r: 255, g: 255, b: 255, a: 255 }
        },
    }
}

/// The output file name of a format's task: the base name, a dot, and the
/// format's extension.
pub open spec fn task_filename_spec(filename: Seq<char>, f: Format) -> Seq<char> {
    filename + seq!['.'] + extension_spec(f)
}

/// One unit of work: render the shared scene once and encode it in one
/// format. Read-only for the lifetime of its task.
#[derive(Debug)]
pub struct EncodeTask {
    /// Identifier of the task within the batch, for its record.
    pub id: usize,
    /// Target output format.
    pub format: Format,
    /// Output file name, extension included.
    pub output_filename: String,
    /// The color the canvas is filled with before the scene is rendered.
    pub background: Color,
    /// Byte layout the encoder expects.
    pub layout: PixelLayout,
}

/// The layout a format's encoder takes.
pub fn layout_for(f: &Format) -> (r: PixelLayout)
    ensures
        r == layout_spec(*f),
{
    if f.has_alpha_channel() {
        PixelLayout::Rgba8
    } else {
        PixelLayout::Rgb8
    }
}

/// The canvas background for a format, honoring an explicit override.
pub fn background_for(f: &Format, explicit: Option<Color>) -> (c: Color)
    ensures
        c == background_spec(*f, explicit),
{
    match explicit {
        Some(c) => c,
        None => {
            if f.has_alpha_channel() {
                Color { r: 0, g: 0, b: 0, a: 0 }
            } else {
                Color { r: 255, g: 255, b: 255, a: 255 }
            }
        },
    }
}

/// The output file name of a format's task.
pub fn task_filename(filename: &String, f: &Format) -> (r: String)
    ensures
        r@ == task_filename_spec(filename@, *f),
{
    let mut name = filename.clone();
    proof {
        reveal_strlit(".");
    }
    name.append(".");
    let ext = f.extension();
    name.append(ext.as_str());
    proof {
        assert(name@ =~= task_filename_spec(filename@, *f));
    }
    name
}

/// Builds one task per distinct requested format, in the order of first
/// occurrence. Every field of a task is a function of its own format, its
/// position, and the shared read-only configuration, so no task depends on
/// a sibling.
pub fn plan_tasks(requested: &Vec<Format>, filename: &String, explicit_background: Option<Color>)
    -> (r: Vec<EncodeTask>)
    ensures
        r@.len() == dedup_spec(requested@).len(),
        forall|i: int|
            0 <= i < r@.len() ==> {
                let f = dedup_spec(requested@)[i];
                &&& (#[trigger] r@[i]).id == i
                &&& r@[i].format == f
                &&& r@[i].output_filename@ == task_filename_spec(filename@, f)
                &&& r@[i].background == background_spec(f, explicit_background)
                &&& r@[i].layout == layout_spec(f)
            },
{
    let formats = dedup_formats(requested);
    let mut tasks: Vec<EncodeTask> = Vec::new();
    let mut i: usize = 0;
    while i < formats.len()
        invariant
            i <= formats.len(),
            formats@ == dedup_spec(requested@),
            tasks@.len() == i,
            forall|k: int|
                0 <= k < i ==> {
                    let f = dedup_spec(requested@)[k];
                    &&& (#[trigger] tasks@[k]).id == k
                    &&& tasks@[k].format == f
                    &&& tasks@[k].output_filename@ == task_filename_spec(filename@, f)
                    &&& tasks@[k].background == background_spec(f, explicit_background)
                    &&& tasks@[k].layout == layout_spec(f)
                },
        decreases formats.len() - i,
    {
        let f = formats[i];
        let task = EncodeTask {
            id: i,
            format: f,
            output_filename: task_filename(filename, &f),
            background: background_for(&f, explicit_background),
            layout: layout_for(&f),
        };
        tasks.push(task);
        i += 1;
    }
    tasks
}

/// What one finished task reports: which task, how long it took, and
/// either success or the encoder's error text. Consumed only for
/// observability.
#[derive(Debug)]
pub struct TaskResult {
    /// The identifier of the task this outcome belongs to.
    pub task_id: usize,
    /// The format the task encoded.
    pub format: Format,
    /// Wall-clock time the task took, in milliseconds.
    pub elapsed_millis: u64,
    /// `None` on success, else the error text.
    pub error: Option<String>,
}

impl TaskResult {
    /// Whether the task produced its output file.
    pub fn is_success(&self) -> (r: bool)
        ensures
            r == (self.error is None),
    {
        match &self.error {
            None => true,
            Some(_) => false,
        }
    }
}

/// The process exit code once fan-out has started: success, whatever the
/// individual task outcomes were. A failed encode is logged, never allowed
/// to abort or outvote its siblings.
pub fn exit_code(_results: &Vec<TaskResult>) -> (r: i32)
    ensures
        r == 0,
{
    0
}

} // verus!

//! What a finished run hands out: the register dump and, where the program
//! reached the video display processor, the picture of its frame.

use vstd::prelude::*;
use vstd::string::*;
use crate::driver::{ExecutionDriver, RunState, RunView};
use crate::frame::{
    encoded, enlarged, enlarged_fits, frame_view, result_view, FrameError, Image, ImageView,
};
use crate::ports::{touches_vdp, used_after, used_iff_touched, PortAccess};
use crate::text::{register_text, render_registers, RegisterSnapshot};

verus! {

/// The picture of a run.
#[derive(Debug, Clone, PartialEq, Eq)]
pub enum Picture {
    /// The program never reached the video display processor: there is no
    /// picture.
    Unused,
    /// The enlarged frame, as an image and as the bytes of its PNG file.
    Rendered { image: Image, png: Vec<u8> },
    /// The frame could not be turned into a picture.
    Failed(FrameError),
}

/// A picture as a plain value.
pub ghost enum PictureView {
    Unused,
    Rendered { image: ImageView, png: Seq<u8> },
    Failed(FrameError),
}

impl View for Picture {
    type V = PictureView;

    open spec fn view(&self) -> PictureView {
        match *self {
            Picture::Unused => PictureView::Unused,
            Picture::Rendered { image, png } => PictureView::Rendered { image: image@, png: png@ },
            Picture::Failed(e) => PictureView::Failed(e),
        }
    }
}

/// The report of a run that came to a halt.
#[derive(Debug, Clone, PartialEq, Eq)]
pub struct RunReport {
    /// The register dump.
    pub text: String,
    /// The picture.
    pub picture: Picture,
}

/// A report as a plain value.
pub ghost struct ReportView {
    pub text: Seq<char>,
    pub picture: PictureView,
}

impl View for RunReport {
    type V = ReportView;

    open spec fn view(&self) -> ReportView {
        ReportView { text: self.text@, picture: self.picture@ }
    }
}

/// Why a run has no report.
#[derive(Debug, Clone, Copy, PartialEq, Eq, Structural)]
pub enum ExportError {
    /// The run has not ended.
    NotFinished,
    /// The run failed. Its registers mean nothing.
    Faulted,
}

/// The picture that a frame of `width` by `height` samples makes: the frame
/// as an image, enlarged. A frame with too few samples makes none, nor does
/// one whose picture cannot be held.
pub open spec fn rendered(width: nat, height: nat, samples: Seq<u32>) -> Result<
    ImageView,
    FrameError,
> {
    if samples.len() < width * height {
        Err(FrameError::TooFewSamples)
    } else if !enlarged_fits(width, height) {
        Err(FrameError::TooLarge)
    } else {
        Ok(enlarged(frame_view(width, height, samples)))
    }
}

/// The picture of a run: none where the video display processor was not
/// used, else what its frame makes, with its PNG file.
pub open spec fn picture_of(vdp_used: bool, width: nat, height: nat, samples: Seq<u32>) -> PictureView {
    if !vdp_used {
        PictureView::Unused
    } else {
        match rendered(width, height, samples) {
            Ok(image) => match encoded(image) {
                Ok(png) => PictureView::Rendered { image, png },
                Err(e) => PictureView::Failed(e),
            },
            Err(e) => PictureView::Failed(e),
        }
    }
}

/// The report of a run, or why it has none. Only a run that came to a halt
/// has a report: the register dump and the picture.
pub open spec fn report_of(
    run: RunView,
    registers: RegisterSnapshot,
    vdp_registers: Seq<u8>,
    frame_width: nat,
    frame_height: nat,
    frame: Seq<u32>,
) -> Result<ReportView, ExportError> {
    match run.state {
        RunState::Halted => Ok(
            ReportView {
                text: register_text(registers, vdp_registers),
                picture: picture_of(run.vdp_used, frame_width, frame_height, frame),
            },
        ),
        RunState::Faulted => Err(ExportError::Faulted),
        _ => Err(ExportError::NotFinished),
    }
}

/// The plain value of a report that may be missing.
pub open spec fn report_view(report: Result<RunReport, ExportError>) -> Result<
    ReportView,
    ExportError,
> {
    match report {
        Ok(r) => Ok(r@),
        Err(e) => Err(e),
    }
}

/// Turns a frame of packed samples into its enlarged picture.
pub fn render_frame(width: usize, height: usize, samples: &[u32]) -> (image: Result<
    Image,
    FrameError,
>)
    ensures
        result_view(image) == rendered(width as nat, height as nat, samples@),
        image matches Ok(i) ==> i.wf(),
{
    proof {
        assert((width * 4) * (height * 4) * 3 >= width * height * 3) by (nonlinear_arith)
            requires
                0 <= width,
                0 <= height,
        ;
    }
    match Image::from_frame(width, height, samples) {
        Err(e) => Err(e),
        Ok(small) => small.enlarge(),
    }
}

/// The report of a run, given the registers of the two engines and the
/// frame as they stand at its end.
///
/// Only a run that came to a halt has a report. The report holds a picture
/// only if the program reached the video display processor.
pub fn export(
    driver: &ExecutionDriver,
    registers: &RegisterSnapshot,
    vdp_registers: &[u8; 8],
    frame_width: usize,
    frame_height: usize,
    frame: &[u32],
) -> (report: Result<RunReport, ExportError>)
    ensures
        report_view(report) == report_of(
            driver@,
            *registers,
            vdp_registers@,
            frame_width as nat,
            frame_height as nat,
            frame@,
        ),
{
    match driver.state() {
        RunState::Halted => {
            let text = render_registers(registers, vdp_registers);
            let picture = if driver.vdp_used() {
                match render_frame(frame_width, frame_height, frame) {
                    Ok(image) => match image.to_png() {
                        Ok(png) => Picture::Rendered { image, png },
                        Err(e) => Picture::Failed(e),
                    },
                    Err(e) => Picture::Failed(e),
                }
            } else {
                Picture::Unused
            };
            Ok(RunReport { text, picture })
        },
        RunState::Faulted => Err(ExportError::Faulted),
        _ => Err(ExportError::NotFinished),
    }
}

/// A program that reaches neither port of the video display processor gets
/// no picture, whatever the frame holds.
pub proof fn untouched_video_gives_no_picture(
    accesses: Seq<PortAccess>,
    width: nat,
    height: nat,
    samples: Seq<u32>,
)
    requires
        forall|i: int| 0 <= i < accesses.len() ==> !touches_vdp(#[trigger] accesses[i]),
    ensures
        !used_after(false, accesses),
        picture_of(used_after(false, accesses), width, height, samples)
            == PictureView::Unused,
{
    used_iff_touched(false, accesses);
}

} // verus!

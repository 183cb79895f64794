use rust_snapshot::capture::as_rgb_image;
use rust_snapshot::pi_capture::{
    CameraCall, CameraReply, Capture, CaptureError, CaptureSettings, Phase, Progress,
};

/// A stand-in for the board: counts the camera objects made and dropped.
struct Board {
    cameras: usize,
    made: u32,
    dropped: u32,
    failing: Option<CameraCall>,
    calls: Vec<CameraCall>,
    picture: Option<Vec<u8>>,
}

impl Board {
    fn new(size: (u32, u32)) -> Board {
        Board {
            cameras: 1,
            made: 0,
            dropped: 0,
            failing: None,
            calls: Vec::new(),
            picture: Some(vec![7u8; (size.0 * size.1 * 3) as usize]),
        }
    }

    fn perform(&mut self, call: CameraCall) -> CameraReply {
        self.calls.push(call);
        let failed = self.failing == Some(call);
        match call {
            CameraCall::QueryInfo => {
                if failed {
                    CameraReply::Info(Err("mmal is not available".to_string()))
                } else {
                    CameraReply::Info(Ok(self.cameras))
                }
            }
            CameraCall::Receive => {
                if failed {
                    CameraReply::Received(Err("receiving on a closed channel".to_string()))
                } else {
                    CameraReply::Received(Ok(self.picture.clone()))
                }
            }
            _ => {
                if failed {
                    CameraReply::Done(Err(format!("{:?} failed", call)))
                } else {
                    if call == CameraCall::CreateCamera {
                        self.made += 1;
                    }
                    CameraReply::Done(Ok(()))
                }
            }
        }
    }

    fn drive(&mut self, capture: &mut Capture, first: Progress) -> Result<Vec<u8>, CaptureError> {
        let mut progress = first;
        loop {
            match progress {
                Progress::Call(call) => {
                    let reply = self.perform(call);
                    progress = capture.advance(reply);
                }
                Progress::Opened => return Ok(Vec::new()),
                Progress::Filled(data) => return Ok(data),
                Progress::Failed { error, release } => {
                    if release {
                        self.dropped += 1;
                    }
                    return Err(error);
                }
            }
        }
    }

    fn init(&mut self, capture: &mut Capture) -> Result<(), CaptureError> {
        let first = capture.init();
        self.drive(capture, first).map(|_| ())
    }

    fn read(&mut self, capture: &mut Capture, buffer: &mut Vec<u8>) -> Result<(), CaptureError> {
        let first = capture.read(buffer.len());
        *buffer = self.drive(capture, first)?;
        Ok(())
    }

    fn shutdown(&mut self, capture: Capture) {
        if capture.shutdown() {
            self.dropped += 1;
        }
    }
}

#[test]
fn pi_capture_single_frame() {
    let size = (1280, 720);
    let mut board = Board::new(size);
    let mut capture = Capture::new(CaptureSettings { resolution: size });

    let buffer_size = capture.get_buffer_size().unwrap();
    let mut buffer = vec![0u8; buffer_size];

    board.init(&mut capture).unwrap();
    board.read(&mut capture, &mut buffer).unwrap();
    board.shutdown(capture);

    let rgb_image = as_rgb_image(buffer.as_slice(), size.0, size.1).unwrap();
    assert_eq!((rgb_image.width(), rgb_image.height()), (1280, 720));
    assert_eq!(rgb_image.as_raw()[0], 7);
    assert_eq!((board.made, board.dropped), (1, 1));
}

#[test]
fn pi_capture_several_frames() {
    let size = (1280, 720);
    let mut board = Board::new(size);
    let mut capture = Capture::new(CaptureSettings { resolution: size });

    let buffer_size = capture.get_buffer_size().unwrap();
    let mut buffer = vec![0u8; buffer_size];

    board.init(&mut capture).unwrap();

    for i in 0..10 {
        board.read(&mut capture, &mut buffer).unwrap();
        println!("Captured frame {}", i);

        let rgb_image = as_rgb_image(buffer.as_slice(), size.0, size.1).unwrap();
        assert_eq!(rgb_image.as_raw().len(), 1280 * 720 * 3);
        println!("Saved frame {}", i);
    }

    board.shutdown(capture);
    assert_eq!((board.made, board.dropped), (1, 1));
}

#[test]
fn pi_set_up_makes_its_calls_in_order() {
    let mut board = Board::new((2, 2));
    let mut capture = Capture::new(CaptureSettings { resolution: (2, 2) });
    assert_eq!(capture.settings().resolution, (2, 2));
    assert_eq!(capture.phase(), Phase::Created);
    board.init(&mut capture).unwrap();
    assert_eq!(capture.phase(), Phase::Ready);
    assert_eq!(
        board.calls,
        vec![
            CameraCall::QueryInfo,
            CameraCall::CreateCamera,
            CameraCall::SetCameraNum,
            CameraCall::CreateEncoder,
            CameraCall::EnableControlPort,
            CameraCall::SetCameraParams,
            CameraCall::SetCameraFormat,
            CameraCall::Enable,
            CameraCall::CreatePool,
            CameraCall::CreatePreview,
            CameraCall::ConnectPreview,
            CameraCall::EnablePreview
        ]
    );
    assert!(matches!(
        capture.init(),
        Progress::Failed { error: CaptureError::NotReady, release: false }
    ));
    board.shutdown(capture);
}

#[test]
fn pi_set_up_drops_the_camera_when_it_fails() {
    let chain = [
        CameraCall::QueryInfo,
        CameraCall::CreateCamera,
        CameraCall::SetCameraNum,
        CameraCall::CreateEncoder,
        CameraCall::EnableControlPort,
        CameraCall::SetCameraParams,
        CameraCall::SetCameraFormat,
        CameraCall::Enable,
        CameraCall::CreatePool,
        CameraCall::CreatePreview,
        CameraCall::ConnectPreview,
        CameraCall::EnablePreview,
    ];
    for failing in chain {
        let mut board = Board::new((2, 2));
        board.failing = Some(failing);
        let mut capture = Capture::new(CaptureSettings { resolution: (2, 2) });
        let error = board.init(&mut capture).unwrap_err();
        assert!(matches!(error, CaptureError::CameraError(_)), "when {:?} fails", failing);
        assert_eq!(capture.phase(), Phase::Failed);
        assert_eq!(board.made, board.dropped, "when {:?} fails", failing);
        board.shutdown(capture);
        assert_eq!(board.made, board.dropped);
    }
    let mut board = Board::new((2, 2));
    board.cameras = 0;
    let mut capture = Capture::new(CaptureSettings { resolution: (2, 2) });
    assert!(matches!(board.init(&mut capture), Err(CaptureError::NoCamerasFound)));
    assert_eq!((board.made, board.dropped), (0, 0));
}

#[test]
fn pi_read_reports_what_the_camera_sends() {
    let mut capture = Capture::new(CaptureSettings { resolution: (2, 2) });
    assert!(matches!(
        capture.read(12),
        Progress::Failed { error: CaptureError::NotReady, release: false }
    ));
    let mut board = Board::new((2, 2));
    board.init(&mut capture).unwrap();
    let mut buffer = vec![0u8; 12];

    board.picture = None;
    assert!(matches!(board.read(&mut capture, &mut buffer), Err(CaptureError::NoBuffer)));
    board.picture = Some(vec![1u8; 11]);
    assert!(matches!(
        board.read(&mut capture, &mut buffer),
        Err(CaptureError::CameraError(m)) if m == "required size 12 != data size 11"
    ));
    board.failing = Some(CameraCall::Take);
    assert!(matches!(
        board.read(&mut capture, &mut buffer),
        Err(CaptureError::CameraError(m)) if m == "Take failed"
    ));
    board.failing = Some(CameraCall::Receive);
    assert!(matches!(
        board.read(&mut capture, &mut buffer),
        Err(CaptureError::CameraError(m)) if m == "receiving on a closed channel"
    ));
    board.failing = None;
    board.picture = Some(vec![9u8; 12]);
    board.read(&mut capture, &mut buffer).unwrap();
    assert_eq!(buffer, vec![9u8; 12]);
    // a report that answers nothing changes nothing
    assert!(matches!(capture.read(12), Progress::Call(CameraCall::Take)));
    assert!(matches!(
        capture.advance(CameraReply::Info(Ok(1))),
        Progress::Call(CameraCall::Take)
    ));
    board.shutdown(capture);
    assert_eq!((board.made, board.dropped), (1, 1));
}

#[test]
fn pi_buffer_and_picture_sizes_are_exact() {
    let capture = Capture::new(CaptureSettings { resolution: (640, 480) });
    assert_eq!(capture.get_buffer_size().unwrap(), 921_600);
    let capture = Capture::new(CaptureSettings { resolution: (u32::MAX, u32::MAX) });
    assert!(matches!(capture.get_buffer_size(), Err(CaptureError::CameraError(_))));
    let bytes = vec![0u8; 24];
    assert!(as_rgb_image(&bytes, 4, 2).is_some());
    assert!(as_rgb_image(&bytes, 2, 2).is_none());
    assert!(as_rgb_image(&bytes[..12], 4, 2).is_none());
}

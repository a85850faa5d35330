use escher::CaptureError;
use escher::Escher;
use escher::Frame;
use escher::Ref;
use escher::Span;
use escher::SpanMut;
use escher::Suspended;
use escher::views::Mixed;
use escher::views::MaybeStr;
use escher::views::MyStr;
use escher::views::VecStr;

fn built<T: escher::Bind>(r: Result<Escher<T>, CaptureError>) -> Escher<T> {
    match r {
        Ok(esc) => esc,
        Err(e) => panic!("construction failed: {}", e.message()),
    }
}

#[test]
fn lib_it_works() {
    let escher_heart = built(Escher::new(|mut f: Frame, r: Ref<VecStr>| {
        let data: Vec<u8> = vec![240, 159, 146, 150];
        let d = f.place(data);
        let parked = r.capture(VecStr { data: d, s: d });
        (f, Some(parked))
    }));

    let view = *escher_heart.as_ref();
    assert_eq!(240, escher_heart.read(&view.data)[0]);
    assert_eq!("💖", std::str::from_utf8(escher_heart.read(&view.s)).unwrap());
}

#[test]
fn tests_it_works() {
    let escher_heart = built(Escher::new(|mut f: Frame, r: Ref<VecStr>| {
        let data: Vec<u8> = vec![240, 159, 146, 150];
        let d = f.place(data);
        let parked = r.capture(VecStr { data: d, s: d });
        (f, Some(parked))
    }));

    let view = *escher_heart.as_ref();
    assert_eq!(240, escher_heart.read(&view.data)[0]);
    assert_eq!("💖", std::str::from_utf8(escher_heart.read(&view.s)).unwrap());
}

#[test]
fn capture_enum() {
    let escher_heart = built(Escher::new(|mut f: Frame, r: Ref<MaybeStr>| {
        let data: Vec<u8> = vec![240, 159, 146, 150];
        let d = f.place(data);
        let parked = r.capture(MaybeStr::Present(d));
        (f, Some(parked))
    }));

    match *escher_heart.as_ref() {
        MaybeStr::Present(s) => {
            assert_eq!("💖", std::str::from_utf8(escher_heart.read(&s)).unwrap());
        }
        MaybeStr::Absent => panic!("expected the captured variant"),
    }
}

#[test]
fn adversarial_sync_fn() {
    // The builder captures but discards the suspension instead of handing
    // it back: the capture is no longer live.
    let r = Escher::new(|mut f: Frame, r: Ref<MyStr>| {
        let data: Vec<u8> = vec![240, 159, 146, 150];
        let d = f.place(data);
        let _ = r.capture(MyStr(d));
        (f, None)
    });

    match r {
        Ok(_) => panic!("construction must fail"),
        Err(e) => {
            assert_eq!(CaptureError::TokenAbandoned, e);
            assert_eq!("capture no longer live", e.message());
        }
    }
}

#[test]
fn capture_never_called() {
    // The builder returns without ever exercising the token.
    let r = Escher::new(|f: Frame, _r: Ref<MyStr>| (f, None));

    match r {
        Ok(_) => panic!("construction must fail"),
        Err(e) => assert_eq!(CaptureError::TokenAbandoned, e),
    }
}

#[test]
fn adversarial_capture_non_stack() {
    // The builder smuggles in a view of data it placed in a frame of its
    // own, not the one the driver handed it: the captured value points
    // outside the frame.
    let r = Escher::new(|f: Frame, r: Ref<MyStr>| {
        let mut elsewhere = Frame::new();
        let data: Vec<u8> = vec![240, 159, 146, 150];
        let d = elsewhere.place(data);
        let parked = r.capture(MyStr(d));
        (f, Some(parked))
    });

    match r {
        Ok(_) => panic!("construction must fail"),
        Err(e) => {
            assert_eq!(CaptureError::OutsideFrame, e);
            assert_eq!("captured value outside of frame", e.message());
        }
    }
}

#[test]
fn capture_text_round_trip() {
    // Reading a captured text view over an owned copy of the bytes gives
    // the same text as decoding the bytes directly.
    let inputs: Vec<&str> = vec!["", "escher", "💖", "tessellation"];
    for text in inputs {
        let bytes = text.as_bytes().to_vec();
        let expected = std::str::from_utf8(&bytes).unwrap().to_owned();
        let esc = built(Escher::new(move |mut f: Frame, r: Ref<Span>| {
            let d = f.place(bytes);
            let parked = r.capture(d);
            (f, Some(parked))
        }));
        let view = *esc.as_ref();
        assert_eq!(expected, std::str::from_utf8(esc.read(&view)).unwrap());
    }
}

#[test]
fn of_bytes_round_trip() {
    // the one-step driver for the simplest builder never fails
    let bytes = vec![240u8, 159, 146, 150];
    let esc = Escher::of_bytes(bytes.clone());
    let view = *esc.as_ref();
    assert_eq!(bytes, esc.read(&view).to_vec());
    assert_eq!("💖", std::str::from_utf8(esc.read(&view)).unwrap());
}

#[test]
fn mutate_through_borrow_mut() {
    let mut esc = built(Escher::new(|mut f: Frame, r: Ref<SpanMut>| {
        let d = f.place(b"escher".to_vec());
        let parked = r.capture(SpanMut { start: d.start, len: d.len });
        (f, Some(parked))
    }));

    let view = *esc.as_ref();
    assert_eq!(&b"escher"[..], esc.read_mut_view(&view));

    esc.write(&view, b"ESCHER");
    assert_eq!(&b"ESCHER"[..], esc.read_mut_view(&view));
}

#[test]
fn capture_mixed() {
    // Mixed immutable and mutable views into distinct owned substructures
    // keep their values independently.
    let mut esc = built(Escher::new(|mut f: Frame, r: Ref<Mixed>| {
        let left = f.place(vec![1, 2, 3]);
        let right = f.place(vec![9, 9]);
        let parked = r.capture(Mixed {
            left,
            right: SpanMut { start: right.start, len: right.len },
        });
        (f, Some(parked))
    }));

    let view = *esc.as_ref();
    assert_eq!(&[1u8, 2, 3][..], esc.read(&view.left));
    assert_eq!(&[9u8, 9][..], esc.read_mut_view(&view.right));

    esc.write(&view.right, &[4, 5]);
    assert_eq!(&[4u8, 5][..], esc.read_mut_view(&view.right));
    assert_eq!(&[1u8, 2, 3][..], esc.read(&view.left));
}

#[test]
fn variant_overwrite() {
    // Overwriting the captured variant through the mutable borrow
    // round-trips: tag and payload are both observable afterwards.
    let mut esc = built(Escher::new(|mut f: Frame, r: Ref<MaybeStr>| {
        let data: Vec<u8> = vec![240, 159, 146, 150];
        let d = f.place(data);
        let parked = r.capture(MaybeStr::Present(d));
        (f, Some(parked))
    }));

    let captured = *esc.as_ref();
    assert!(matches!(captured, MaybeStr::Present(_)));

    *esc.as_mut() = MaybeStr::Absent;
    assert_eq!(MaybeStr::Absent, *esc.as_ref());

    *esc.as_mut() = captured;
    match *esc.as_ref() {
        MaybeStr::Present(s) => {
            assert_eq!("💖", std::str::from_utf8(esc.read(&s)).unwrap());
        }
        MaybeStr::Absent => panic!("expected the restored variant"),
    }
}

#[test]
fn borrow_idempotent() {
    let esc = built(Escher::new(|mut f: Frame, r: Ref<Span>| {
        let d = f.place(vec![10, 20, 30]);
        let parked = r.capture(d);
        (f, Some(parked))
    }));

    assert_eq!(*esc.as_ref(), *esc.as_ref());
    let first = esc.read(&*esc.as_ref()).to_vec();
    let second = esc.read(&*esc.as_ref()).to_vec();
    assert_eq!(first, second);
}

#[test]
fn empty_capture() {
    let esc = built(Escher::new(|mut f: Frame, r: Ref<Span>| {
        let d = f.place(Vec::new());
        let parked = r.capture(d);
        (f, Some(parked))
    }));

    let view = *esc.as_ref();
    assert_eq!(0, view.len);
    assert!(esc.read(&view).is_empty());
}

#[test]
fn distinct_diagnostics() {
    assert_ne!(
        CaptureError::TokenAbandoned.message(),
        CaptureError::OutsideFrame.message()
    );
}

#[test]
fn validate_rejects_missing_step() {
    let step: Option<Suspended<Span>> = None;
    match Escher::validate(Frame::new(), step) {
        Ok(_) => panic!("validation must fail"),
        Err(e) => assert_eq!(CaptureError::TokenAbandoned, e),
    }
}

#[test]
fn handshake_gate() {
    assert!(escher::validate_handshake(2, 150, 100, 100).is_ok());
    assert_eq!(
        Err(CaptureError::TokenAbandoned),
        escher::validate_handshake(1, 150, 100, 100)
    );
    assert_eq!(
        Err(CaptureError::OutsideFrame),
        escher::validate_handshake(2, 300, 100, 100)
    );
    // the range is inclusive at both ends, as the address of a value one
    // past the last byte of a frame is still a frame address
    assert!(escher::validate_handshake(2, 100, 100, 100).is_ok());
    assert!(escher::validate_handshake(2, 200, 100, 100).is_ok());
}

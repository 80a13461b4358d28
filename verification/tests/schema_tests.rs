use libcamera::meta::{
    parse_control_files, ControlSize, ControlType, SchemaError,
};

#[test]
fn parses_a_simple_control() {
    let text = "\
controls:
  - AeEnable:
      type: bool
      description: Enable the auto exposure algorithm.
"
    .to_string();
    let controls = parse_control_files(&vec![text]).unwrap();
    assert_eq!(controls.len(), 1);
    assert_eq!(controls[0].name, b"AeEnable".to_vec());
    assert_eq!(controls[0].vendor, b"libcamera".to_vec());
    assert_eq!(controls[0].typ, ControlType::Bool);
    assert_eq!(
        controls[0].description,
        b"Enable the auto exposure algorithm.".to_vec()
    );
    assert!(controls[0].size.is_none());
    assert!(controls[0].enumeration.is_none());
}

#[test]
fn document_vendor_wins_over_draft_flag() {
    let text = "\
vendor: rpi
controls:
  - Fast:
      type: int32_t
      description: Vendor specific.
      draft: true
"
    .to_string();
    let controls = parse_control_files(&vec![text]).unwrap();
    assert_eq!(controls[0].vendor, b"rpi".to_vec());
}

#[test]
fn draft_flag_infers_draft_namespace() {
    let text = "\
controls:
  - Pending:
      type: int32_t
      description: Not yet stable.
      draft: true
"
    .to_string();
    let controls = parse_control_files(&vec![text]).unwrap();
    assert_eq!(controls[0].vendor, b"draft".to_vec());
}

#[test]
fn fixed_size_specification_is_kept() {
    let text = "\
controls:
  - ColourGains:
      type: float
      description: Gains.
      size: [2]
"
    .to_string();
    let controls = parse_control_files(&vec![text]).unwrap();
    assert_eq!(controls[0].size, Some(vec![ControlSize::Fixed(2)]));
}

#[test]
fn dynamic_size_must_be_alone() {
    // A size specification [Dynamic, Fixed(4)] is rejected as invalid.
    let text = "\
controls:
  - Windows:
      type: Rectangle
      description: Windows.
      size: [n, 4]
"
    .to_string();
    match parse_control_files(&vec![text]) {
        Err(e) => assert_eq!(e, SchemaError::SizeSpec),
        Ok(_) => panic!("a trailing dimension after a dynamic one must be rejected"),
    }
}

#[test]
fn empty_size_specification_is_rejected() {
    let text = "\
controls:
  - Windows:
      type: Rectangle
      description: Windows.
      size: []
"
    .to_string();
    match parse_control_files(&vec![text]) {
        Err(e) => assert_eq!(e, SchemaError::SizeSpec),
        Ok(_) => panic!("an empty size specification must be rejected"),
    }
}

#[test]
fn dynamic_size_alone_is_accepted() {
    let text = "\
controls:
  - Windows:
      type: Rectangle
      description: Windows.
      size: [n]
"
    .to_string();
    let controls = parse_control_files(&vec![text]).unwrap();
    assert_eq!(controls[0].size, Some(vec![ControlSize::Dynamic]));
}

#[test]
fn enumerations_are_read_in_order() {
    let text = "\
controls:
  - AfState:
      type: int32_t
      description: State of the autofocus.
      enum:
        - name: AfStateIdle
          value: 0
          description: Idle.
        - name: AfStateScanning
          value: 1
          description: Scanning.
"
    .to_string();
    let controls = parse_control_files(&vec![text]).unwrap();
    let e = controls[0].enumeration.as_ref().unwrap();
    assert_eq!(e.len(), 2);
    assert_eq!(e[0].name, b"AfStateIdle".to_vec());
    assert_eq!(e[0].value, 0);
    assert_eq!(e[1].name, b"AfStateScanning".to_vec());
    assert_eq!(e[1].value, 1);
}

#[test]
fn unknown_type_keyword_fails() {
    let text = "\
controls:
  - Broken:
      type: quaternion
      description: Bad.
"
    .to_string();
    match parse_control_files(&vec![text]) {
        Err(e) => assert_eq!(e, SchemaError::BadType),
        Ok(_) => panic!("an unknown type keyword must be rejected"),
    }
}

#[test]
fn missing_description_fails() {
    let text = "\
controls:
  - Broken:
      type: bool
"
    .to_string();
    match parse_control_files(&vec![text]) {
        Err(e) => assert_eq!(e, SchemaError::Description),
        Ok(_) => panic!("a missing description must be rejected"),
    }
}

#[test]
fn files_are_concatenated_in_order() {
    let a = "controls:\n  - A:\n      type: bool\n      description: a.\n".to_string();
    let b = "controls:\n  - B:\n      type: bool\n      description: b.\n".to_string();
    let controls = parse_control_files(&vec![a, b]).unwrap();
    assert_eq!(controls.len(), 2);
    assert_eq!(controls[0].name, b"A".to_vec());
    assert_eq!(controls[1].name, b"B".to_vec());
}

use rs485_node::adc::{adc_work, AdcReader, BadButton, Button};

fn settled(sample: u32) -> Result<Option<Button>, BadButton> {
    let mut reader = AdcReader::new();
    let _ = reader.read_button(sample);
    reader.read_button(sample)
}

#[test]
fn first_sample_far_from_zero_has_not_settled() {
    let mut reader = AdcReader::new();
    assert_eq!(reader.read_button(1428), Ok(None));
    assert_eq!(reader.read_button(1430), Ok(Some(Button::Button0)));
}

#[test]
fn each_button_has_its_window() {
    assert_eq!(settled(1428), Ok(Some(Button::Button0)));
    assert_eq!(settled(1706), Ok(Some(Button::Button1)));
    assert_eq!(settled(1973), Ok(Some(Button::Button2)));
    assert_eq!(settled(2280), Ok(Some(Button::Button3)));
    assert_eq!(settled(2550), Ok(Some(Button::Button4)));
    assert_eq!(settled(2830), Ok(Some(Button::Button5)));
}

#[test]
fn window_edges() {
    assert_eq!(settled(1327), Err(BadButton));
    assert_eq!(settled(1328), Ok(Some(Button::Button0)));
    assert_eq!(settled(1528), Ok(Some(Button::Button0)));
    assert_eq!(settled(1529), Err(BadButton));
    assert_eq!(settled(1605), Err(BadButton));
    assert_eq!(settled(1606), Ok(Some(Button::Button1)));
    assert_eq!(settled(1806), Ok(Some(Button::Button1)));
    assert_eq!(settled(1873), Ok(Some(Button::Button2)));
    assert_eq!(settled(2073), Ok(Some(Button::Button2)));
    assert_eq!(settled(2180), Ok(Some(Button::Button3)));
    assert_eq!(settled(2380), Ok(Some(Button::Button3)));
    assert_eq!(settled(2450), Ok(Some(Button::Button4)));
    assert_eq!(settled(2650), Ok(Some(Button::Button4)));
    assert_eq!(settled(2730), Ok(Some(Button::Button5)));
    assert_eq!(settled(2930), Ok(Some(Button::Button5)));
    assert_eq!(settled(2931), Err(BadButton));
}

#[test]
fn released_input_is_no_button() {
    assert_eq!(settled(3962), Err(BadButton));
    assert_eq!(settled(3963), Ok(None));
    assert_eq!(settled(4095), Ok(None));
    assert_eq!(settled(4096), Err(BadButton));
}

#[test]
fn low_samples_are_bad() {
    let mut reader = AdcReader::new();
    assert_eq!(reader.read_button(0), Err(BadButton));
    assert_eq!(reader.read_button(5), Err(BadButton));
    assert_eq!(reader.read_button(11), Ok(None));
}

#[test]
fn tolerance_is_five_either_way() {
    let mut reader = AdcReader::new();
    let _ = reader.read_button(2000);
    assert_eq!(reader.read_button(2005), Ok(Some(Button::Button2)));
    assert_eq!(reader.read_button(2011), Ok(None));
    assert_eq!(reader.read_button(2006), Ok(Some(Button::Button2)));
    assert_eq!(reader.read_button(2000), Ok(None));
    assert_eq!(reader.read_button(3000), Ok(None));
    assert_eq!(reader.read_button(3000), Err(BadButton));
}

#[test]
fn adc_work_records_a_pressed_button() {
    let mut reader = AdcReader::new();
    let mut button = None;
    adc_work(&mut reader, 2550, &mut button);
    assert_eq!(button, None);
    adc_work(&mut reader, 2551, &mut button);
    assert_eq!(button, Some(Button::Button4));
    adc_work(&mut reader, 4000, &mut button);
    adc_work(&mut reader, 4000, &mut button);
    assert_eq!(button, Some(Button::Button4));
    adc_work(&mut reader, 3000, &mut button);
    adc_work(&mut reader, 3000, &mut button);
    assert_eq!(button, Some(Button::Button4));
    adc_work(&mut reader, 1428, &mut button);
    adc_work(&mut reader, 1428, &mut button);
    assert_eq!(button, Some(Button::Button0));
}

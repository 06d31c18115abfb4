use simple_gain::html::get_html;
use simple_gain::html::inline_script;
use simple_gain::info::PluginCategory;
use simple_gain::info::editor_size;
use simple_gain::info::plugin_info;
use simple_gain::process::process_block;

#[test]
fn script_is_wrapped_in_a_script_element() {
    assert_eq!(
        inline_script("var x = 1;"),
        "<script type=\"text/javascript\">var x = 1;</script>"
    );
    assert_eq!(inline_script(""), "<script type=\"text/javascript\"></script>");
}

#[test]
fn document_embeds_the_bundle() {
    let html = get_html("mountApp();");
    assert!(html.contains("<!doctype html>"));
    assert!(html.contains("<div id=\"app\"></div>"));
    assert!(html.contains("Please, upgrade Internet Explorer"));
    assert!(html.contains("<script type=\"text/javascript\">mountApp();</script>"));
    assert!(html.trim_end().ends_with("</html>"));
}

#[test]
fn plugin_identity() {
    let info = plugin_info();
    assert_eq!(info.name, "Simple Gain");
    assert_eq!(info.vendor, "Psykhedelic Mandala");
    assert_eq!(info.unique_id, 1337);
    assert_eq!(info.category, PluginCategory::Effect);
    assert_eq!(info.inputs, 2);
    assert_eq!(info.outputs, 2);
    assert_eq!(info.parameters, 1);
    assert_eq!(editor_size(), (480, 500));
}

#[test]
fn processing_scales_every_sample() {
    let gain: f32 = 0.5;
    let left: Vec<u32> = [1.0f32, -2.0, 0.25, 8.0].iter().map(|s| s.to_bits()).collect();
    let right: Vec<u32> = [0.0f32, 4.0, -0.5, 1.5].iter().map(|s| s.to_bits()).collect();
    let (out_left, out_right) =
        process_block(|s| (f32::from_bits(s) * gain).to_bits(), &left, &right);
    let expected_left = [0.5f32, -1.0, 0.125, 4.0];
    let expected_right = [0.0f32, 2.0, -0.25, 0.75];
    assert_eq!(out_left.len(), 4);
    assert_eq!(out_right.len(), 4);
    for i in 0..4 {
        assert_eq!(f32::from_bits(out_left[i]), expected_left[i]);
        assert_eq!(f32::from_bits(out_right[i]), expected_right[i]);
    }
}

#[test]
fn processing_an_empty_block_writes_nothing() {
    let left: Vec<u32> = Vec::new();
    let right: Vec<u32> = Vec::new();
    let (out_left, out_right) = process_block(|s| s, &left, &right);
    assert!(out_left.is_empty());
    assert!(out_right.is_empty());
}

#[test]
fn unity_gain_preserves_sample_bits() {
    let gain: f32 = 1.0;
    let left: Vec<u32> = vec![0.1f32.to_bits(), 123.456f32.to_bits()];
    let right: Vec<u32> = vec![(-0.1f32).to_bits(), 0.0f32.to_bits()];
    let (out_left, out_right) =
        process_block(|s| (f32::from_bits(s) * gain).to_bits(), &left, &right);
    assert_eq!(out_left, left);
    assert_eq!(out_right, right);
}

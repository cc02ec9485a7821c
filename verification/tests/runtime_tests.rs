use akimo_runtime::descriptors::{Size2, TextureFormat};
use akimo_runtime::gpu::{Device, Queue};
use akimo_runtime::runtime::App;
use akimo_runtime::surface::{SurfaceConfiguration, SurfaceWrapper};

struct CountingApp {
    updates: u32,
    width: u32,
}

impl App for CountingApp {
    fn init(config: &SurfaceConfiguration, _device: &Device, _queue: &Queue) -> Self {
        CountingApp { updates: 0, width: config.width }
    }

    fn on_resize(&mut self, new_size: Size2, _device: &Device, _queue: &Queue) {
        self.width = new_size.width;
    }

    fn on_update(&mut self) {
        self.updates += 1;
    }
}

#[test]
fn app_hooks_drive_state() {
    let device = Device::new();
    let queue = Queue::new();
    let mut wrapper = SurfaceWrapper::new();
    wrapper.resume(&device, 320, 200, TextureFormat::Rgba8Unorm);
    assert_eq!(
        wrapper.configuration().view_formats,
        vec![TextureFormat::Rgba8UnormSrgb]
    );

    let mut app = CountingApp::init(wrapper.configuration(), &device, &queue);
    assert_eq!(app.width, 320);
    app.on_update();
    app.on_update();
    assert_eq!(app.updates, 2);
    app.on_resize(Size2 { width: 640, height: 400 }, &device, &queue);
    assert_eq!(app.width, 640);
}

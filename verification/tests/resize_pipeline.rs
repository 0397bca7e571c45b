use rosemary::config::load::Config;
use rosemary::images::resize_to_max::{
    plan_breakpoint, process_decoded, process_job, resize_to_max, run_resize_job, PipelineError,
    ResizeImageJob,
};
use rosemary::jobs::image_processing::JobDescriptor;

fn runtime() -> tokio::runtime::Runtime {
    tokio::runtime::Runtime::new().unwrap()
}

fn prepare_dir(dir: &str) {
    let rt = runtime();
    let images = format!("{}/images", dir);
    rt.block_on(async {
        let _ = tokio::fs::remove_dir_all(dir).await;
        tokio::fs::create_dir_all(images.as_str()).await.unwrap();
    });
}

fn write_source(dir: &str, name: &str, width: u32, height: u32) -> String {
    let path = format!("{}/{}", dir, name);
    let img = image::DynamicImage::new_rgb8(width, height);
    img.save_with_format(&path, image::ImageFormat::Png).unwrap();
    path
}

fn config_for(dir: &str) -> Config {
    Config {
        database_url: String::new(),
        database_cert_path: String::new(),
        static_files_dir: String::from(dir),
        static_files_url: String::new(),
        jwt_secret: String::new(),
        register_user_secret: String::new(),
        database_cert_provided: false,
        user_action_daily: 1,
        mailer_send_token: String::new(),
        app_base_url: String::new(),
    }
}

fn saved_dimensions(path: &str) -> (u32, u32) {
    let img = image::open(path).unwrap();
    (img.width(), img.height())
}

#[test]
fn landscape_source_derives_all_breakpoints() {
    let dir = "/tmp/rosemary_pipeline_a";
    prepare_dir(dir);
    let source = write_source(dir, "source.png", 2000, 1000);

    let desc = JobDescriptor {
        id: 1,
        source_path: source,
        output_name: String::from("source"),
        output_dir: String::from(dir),
        widths: vec![1024, 640, 320],
    };
    let (outcomes, fatal) = process_job(&desc);

    assert!(fatal.is_none());
    assert_eq!(outcomes.len(), 3);
    let expected = [(1024u32, 512u32), (640, 320), (320, 160)];
    for (i, (width, height)) in expected.iter().enumerate() {
        assert_eq!(outcomes[i].width, *width);
        assert!(outcomes[i].success);
        let rel = format!("images/source_{}.jpeg", width);
        assert_eq!(outcomes[i].relative_path.as_deref(), Some(rel.as_str()));
        let full = format!("{}/{}", dir, rel);
        assert_eq!(saved_dimensions(&full), (*width, *height));
    }
}

#[test]
fn widths_are_processed_in_descending_order() {
    let dir = "/tmp/rosemary_pipeline_order";
    prepare_dir(dir);
    let source = write_source(dir, "source.png", 400, 200);

    let desc = JobDescriptor {
        id: 2,
        source_path: source,
        output_name: String::from("source"),
        output_dir: String::from(dir),
        widths: vec![100, 300, 200],
    };
    let (outcomes, _) = process_job(&desc);
    let widths: Vec<u32> = outcomes.iter().map(|o| o.width).collect();
    assert_eq!(widths, vec![300, 200, 100]);
}

#[test]
fn missing_source_is_job_fatal() {
    let dir = "/tmp/rosemary_pipeline_b";
    prepare_dir(dir);

    let desc = JobDescriptor {
        id: 3,
        source_path: String::from("/tmp/rosemary_pipeline_b/no_such_file.png"),
        output_name: String::from("gone"),
        output_dir: String::from(dir),
        widths: vec![1024, 640, 320],
    };
    let (outcomes, fatal) = process_job(&desc);

    assert_eq!(fatal, Some(PipelineError::DecodeError));
    assert_eq!(outcomes.len(), 3);
    for outcome in &outcomes {
        assert!(!outcome.success);
        assert!(outcome.relative_path.is_none());
        // Nothing was written for this width.
        let full = format!("{}/images/gone_{}.jpeg", dir, outcome.width);
        assert!(image::open(&full).is_err());
    }
}

#[test]
fn one_failed_write_does_not_cascade() {
    let dir = "/tmp/rosemary_pipeline_c";
    prepare_dir(dir);
    let source = write_source(dir, "source.png", 2000, 1000);
    // A directory squats on the middle derivative's path, so that one
    // write, and only that one, must fail.
    let rt = runtime();
    rt.block_on(async {
        tokio::fs::create_dir_all(format!("{}/images/source_640.jpeg", dir).as_str())
            .await
            .unwrap();
    });

    let desc = JobDescriptor {
        id: 4,
        source_path: source,
        output_name: String::from("source"),
        output_dir: String::from(dir),
        widths: vec![1024, 640, 320],
    };
    let (outcomes, fatal) = process_job(&desc);

    assert!(fatal.is_none());
    // The working image chains in memory, so the blocked middle width
    // fails alone and the smaller width still derives from the larger.
    assert!(outcomes[0].success);
    assert!(!outcomes[1].success);
    assert!(outcomes[1].relative_path.is_none());
    assert!(outcomes[2].success);
    assert_eq!(
        saved_dimensions(&format!("{}/images/source_320.jpeg", dir)),
        (320, 160)
    );
}

#[test]
fn resizing_twice_yields_identical_dimensions() {
    let first_dir = "/tmp/rosemary_pipeline_idem1";
    let second_dir = "/tmp/rosemary_pipeline_idem2";
    prepare_dir(first_dir);
    prepare_dir(second_dir);
    let first_source = write_source(first_dir, "source.png", 1333, 777);
    let second_source = write_source(second_dir, "source.png", 1333, 777);

    let widths = vec![500, 260, 90];
    let first = JobDescriptor {
        id: 5,
        source_path: first_source,
        output_name: String::from("source"),
        output_dir: String::from(first_dir),
        widths: widths.clone(),
    };
    let second = JobDescriptor {
        id: 6,
        source_path: second_source,
        output_name: String::from("source"),
        output_dir: String::from(second_dir),
        widths,
    };
    let (first_out, _) = process_job(&first);
    let (second_out, _) = process_job(&second);

    assert_eq!(first_out.len(), second_out.len());
    for i in 0..first_out.len() {
        assert_eq!(first_out[i].width, second_out[i].width);
        let first_dims = saved_dimensions(&format!(
            "{}/images/source_{}.jpeg",
            first_dir, first_out[i].width
        ));
        let second_dims = saved_dimensions(&format!(
            "{}/images/source_{}.jpeg",
            second_dir, second_out[i].width
        ));
        assert_eq!(first_dims, second_dims);
    }
}

#[test]
fn portrait_source_constrains_height() {
    let dir = "/tmp/rosemary_pipeline_portrait";
    prepare_dir(dir);
    let source = write_source(dir, "tall.png", 500, 1000);

    let desc = JobDescriptor {
        id: 7,
        source_path: source,
        output_name: String::from("tall"),
        output_dir: String::from(dir),
        widths: vec![400],
    };
    let (outcomes, fatal) = process_job(&desc);
    assert!(fatal.is_none());
    assert!(outcomes[0].success);
    assert_eq!(
        saved_dimensions(&format!("{}/images/tall_400.jpeg", dir)),
        (200, 400)
    );
}

#[test]
fn missing_config_fails_every_width() {
    let job = ResizeImageJob {
        max_sizes: vec![640, 320],
        path: String::from("/tmp/anywhere.png"),
        new_name: None,
    };
    let flags = resize_to_max(&job, None);
    assert_eq!(flags, vec![false, false]);

    let (outcomes, fatal) = run_resize_job(&job, None);
    assert_eq!(fatal, Some(PipelineError::ConfigError));
    assert!(outcomes.iter().all(|o| !o.success));
}

#[test]
fn inline_job_names_after_the_source_stem() {
    let dir = "/tmp/rosemary_pipeline_inline";
    prepare_dir(dir);
    let source = write_source(dir, "painting.png", 800, 400);

    let job = ResizeImageJob {
        max_sizes: vec![200, 400],
        path: source,
        new_name: None,
    };
    let config = config_for(dir);
    let flags = resize_to_max(&job, Some(&config));
    assert_eq!(flags, vec![true, true]);
    assert_eq!(
        saved_dimensions(&format!("{}/images/painting_400.jpeg", dir)),
        (400, 200)
    );
    assert_eq!(
        saved_dimensions(&format!("{}/images/painting_200.jpeg", dir)),
        (200, 100)
    );
}

#[test]
fn unusable_stem_is_job_fatal() {
    let dir = "/tmp/rosemary_pipeline_stem";
    prepare_dir(dir);

    let job = ResizeImageJob {
        max_sizes: vec![100],
        path: String::from("/tmp/rosemary_pipeline_stem/"),
        new_name: None,
    };
    let config = config_for(dir);
    let (outcomes, fatal) = run_resize_job(&job, Some(&config));
    assert_eq!(fatal, Some(PipelineError::DecodeError));
    assert!(!outcomes[0].success);
}

#[test]
fn unplannable_breakpoint_is_a_resize_error() {
    match plan_breakpoint(2000, 1000, 0) {
        Err(error) => assert_eq!(error, PipelineError::ResizeError),
        Ok(_) => panic!("no plan exists for a zero breakpoint"),
    }
    match plan_breakpoint(10000, 1, 100) {
        Err(error) => assert_eq!(error, PipelineError::ResizeError),
        Ok(_) => panic!("a zero-height plan must be refused"),
    }
}

#[test]
fn decode_failure_reported_for_every_value() {
    let (outcomes, fatal) = process_decoded(None, vec![640, 320, 1920], "any", "/tmp");
    assert_eq!(fatal, Some(PipelineError::DecodeError));
    let widths: Vec<u32> = outcomes.iter().map(|o| o.width).collect();
    assert_eq!(widths, vec![1920, 640, 320]);
    assert!(outcomes.iter().all(|o| !o.success));
}

//! The keys under which the interface texts are looked up.
use vstd::prelude::*;

verus! {

// App title
pub const APP_TITLE: &'static str = "app_title";

// Common buttons
pub const BUTTON_NEXT: &'static str = "button_next";
pub const BUTTON_BACK: &'static str = "button_back";
pub const BUTTON_REFRESH: &'static str = "button_refresh";
pub const BUTTON_CANCEL: &'static str = "button_cancel";
pub const BUTTON_CONFIRM: &'static str = "button_confirm";
pub const BUTTON_RETRY: &'static str = "button_retry";
pub const BUTTON_SELECT_DIR: &'static str = "button_select_dir";

// Loading state
pub const LOADING_TITLE: &'static str = "loading_title";
pub const LOADING_MESSAGE: &'static str = "loading_message";

// Version selection
pub const VERSION_SELECTION_TITLE: &'static str = "version_selection_title";
pub const AVAILABLE_VERSIONS: &'static str = "available_versions";
pub const LATEST_TAG: &'static str = "latest_tag";
pub const TEMP_DIR_LABEL: &'static str = "temp_dir_label";
pub const TEMP_DIR_HINT: &'static str = "temp_dir_hint";

// USB selection
pub const USB_SELECTION_TITLE: &'static str = "usb_selection_title";
pub const USB_WARNING: &'static str = "usb_warning";
pub const NO_USB_DETECTED: &'static str = "no_usb_detected";
pub const USB_DETECTED_DEVICES: &'static str = "usb_detected_devices";
pub const MANUAL_DRIVE_HINT: &'static str = "manual_drive_hint";
pub const MANUAL_DRIVE_EXAMPLE: &'static str = "manual_drive_example";

// Format warning
pub const FORMAT_WARNING_TITLE: &'static str = "format_warning_title";
pub const FORMAT_WARNING_MESSAGE: &'static str = "format_warning_message";
pub const FORMAT_BACKUP_NOTICE: &'static str = "format_backup_notice";
pub const FORMAT_CONFIRM_CHECK: &'static str = "format_confirm_check";

// Downloading
pub const DOWNLOADING_TITLE: &'static str = "downloading_title";
pub const PREPARING_DOWNLOAD: &'static str = "preparing_download";
pub const VERIFYING: &'static str = "verifying";
pub const SKIP_VERIFY_TITLE: &'static str = "skip_verify_title";
pub const SKIP_VERIFY_MESSAGE: &'static str = "skip_verify_message";
pub const SKIP_VERIFY_CONFIRM: &'static str = "skip_verify_confirm";
pub const SKIP_CURRENT_VERIFY: &'static str = "skip_current_verify";
pub const VERIFY_SKIPPED: &'static str = "verify_skipped";
pub const STATUS_PENDING: &'static str = "status_pending";
pub const STATUS_DOWNLOADING: &'static str = "status_downloading";
pub const STATUS_COMPLETED: &'static str = "status_completed";
pub const STATUS_FAILED: &'static str = "status_failed";
pub const DOWNLOAD_COMPLETE: &'static str = "download_complete";
pub const NEXT_STEP_FORMAT: &'static str = "next_step_format";
pub const DOWNLOAD_FAILED: &'static str = "download_failed";
pub const ERROR_DETAILS: &'static str = "error_details";
pub const TIP_TITLE: &'static str = "tip_title";
pub const TIP_403_ERROR: &'static str = "tip_403_error";
pub const TIP_403_CAUSE_1: &'static str = "tip_403_cause_1";
pub const TIP_403_CAUSE_2: &'static str = "tip_403_cause_2";
pub const TIP_403_CAUSE_3: &'static str = "tip_403_cause_3";
pub const TIP_403_SUGGESTION: &'static str = "tip_403_suggestion";

// Format confirmation
pub const FORMAT_CONFIRMATION_TITLE: &'static str = "format_confirmation_title";
pub const FINAL_WARNING: &'static str = "final_warning";
pub const OPERATIONS_LIST: &'static str = "operations_list";
pub const OP_CLEAR_PARTITIONS: &'static str = "op_clear_partitions";
pub const OP_CREATE_EXFAT: &'static str = "op_create_exfat";
pub const OP_SET_LABEL: &'static str = "op_set_label";
pub const OP_ASSIGN_LETTER: &'static str = "op_assign_letter";
pub const OP_COPY_FILES: &'static str = "op_copy_files";
pub const TARGET_DEVICE: &'static str = "target_device";
pub const START_FORMAT: &'static str = "start_format";

// Formatting
pub const FORMATTING_TITLE: &'static str = "formatting_title";
pub const FORMATTING_MESSAGE: &'static str = "formatting_message";
pub const FORMATTING_WARNING: &'static str = "formatting_warning";
pub const STATUS_LABEL: &'static str = "status_label";

// Copying
pub const COPYING_TITLE: &'static str = "copying_title";
pub const COPYING_MESSAGE: &'static str = "copying_message";
pub const CURRENT_FILE: &'static str = "current_file";

// Completed
pub const COMPLETED_TITLE: &'static str = "completed_title";
pub const COMPLETED_MESSAGE: &'static str = "completed_message";
pub const COMPLETED_SUBMESSAGE: &'static str = "completed_submessage";
pub const RETURN_HOME: &'static str = "return_home";

// Error
pub const ERROR_TITLE: &'static str = "error_title";
pub const ERROR_PREFIX: &'static str = "error_prefix";

// Disk space warning
pub const DISK_SPACE_WARNING_TITLE: &'static str = "disk_space_warning_title";
pub const DISK_SPACE_WARNING_MESSAGE: &'static str = "disk_space_warning_message";
pub const REQUIRED_SPACE: &'static str = "required_space";
pub const AVAILABLE_SPACE: &'static str = "available_space";
pub const SELECT_OTHER_DIR: &'static str = "select_other_dir";

// Language settings
pub const LANGUAGE_SETTINGS: &'static str = "language_settings";
pub const LANGUAGE_LABEL: &'static str = "language_label";

} // verus!

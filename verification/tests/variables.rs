use chiaro::irsdk::key::{TelemetryKey, VariableShape};
use chiaro::irsdk::frame::VariableType;
use chiaro::irsdk::variables::{camera, cars, chassis, pit, player, radio, session, weather};

#[test]
fn session_and_player_keys_use_sdk_names() {
    assert_eq!(session::SESSION_TIME().name(), "SessionTime");
    assert_eq!(session::SESSION_TICK().name(), "SessionTick");
    assert_eq!(session::SESSION_NUM().name(), "SessionNum");
    assert_eq!(session::SESSION_STATE().name(), "SessionState");
    assert_eq!(session::SESSION_UNIQUE_ID().name(), "SessionUniqueID");
    assert_eq!(session::SESSION_FLAGS().name(), "SessionFlags");
    assert_eq!(session::SESSION_TIME_REMAIN().name(), "SessionTimeRemain");
    assert_eq!(session::SESSION_LAPS_REMAIN().name(), "SessionLapsRemain");
    assert_eq!(session::SESSION_LAPS_REMAIN_EX().name(), "SessionLapsRemainEx");
    assert_eq!(session::SESSION_TIME_OF_DAY().name(), "SessionTimeOfDay");
    assert_eq!(session::RACE_LAPS().name(), "RaceLaps");
    assert_eq!(session::PITS_OPEN().name(), "PitsOpen");
    assert_eq!(session::PACE_MODE().name(), "PaceMode");
    assert_eq!(player::PLAYER_CAR_IDX().name(), "PlayerCarIdx");
    assert_eq!(player::IS_ON_TRACK().name(), "IsOnTrack");
    assert_eq!(player::IS_ON_TRACK_CAR().name(), "IsOnTrackCar");
    assert_eq!(player::IS_IN_GARAGE().name(), "IsInGarage");
    assert_eq!(player::DRIVER_MARKER().name(), "DriverMarker");
    assert_eq!(player::SPEED().name(), "Speed");
    assert_eq!(player::RPM().name(), "RPM");
    assert_eq!(player::GEAR().name(), "Gear");
    assert_eq!(player::THROTTLE().name(), "Throttle");
    assert_eq!(player::BRAKE().name(), "Brake");
    assert_eq!(player::CLUTCH().name(), "Clutch");
    assert_eq!(player::STEERING_WHEEL_ANGLE().name(), "SteeringWheelAngle");
    assert_eq!(player::FUEL_LEVEL().name(), "FuelLevel");
    assert_eq!(player::FUEL_LEVEL_PCT().name(), "FuelLevelPct");
    assert_eq!(player::LAP().name(), "Lap");
    assert_eq!(player::LAP_COMPLETED().name(), "LapCompleted");
    assert_eq!(player::LAP_DIST().name(), "LapDist");
    assert_eq!(player::LAP_DIST_PCT().name(), "LapDistPct");
    assert_eq!(player::LAP_BEST_LAP().name(), "LapBestLap");
    assert_eq!(player::LAP_BEST_LAP_TIME().name(), "LapBestLapTime");
    assert_eq!(player::LAP_LAST_LAP_TIME().name(), "LapLastLapTime");
    assert_eq!(player::LAP_CURRENT_LAP_TIME().name(), "LapCurrentLapTime");
    assert_eq!(player::PLAYER_CAR_POSITION().name(), "PlayerCarPosition");
    assert_eq!(player::PLAYER_CAR_CLASS_POSITION().name(), "PlayerCarClassPosition");
    assert_eq!(player::ON_PIT_ROAD().name(), "OnPitRoad");
    assert_eq!(player::PLAYER_TRACK_SURFACE().name(), "PlayerTrackSurface");
    assert_eq!(player::PLAYER_TRACK_SURFACE_MATERIAL().name(), "PlayerTrackSurfaceMaterial");
    assert_eq!(player::CAR_LEFT_RIGHT().name(), "CarLeftRight");
    assert_eq!(player::PLAYER_INCIDENTS().name(), "PlayerIncidents");
}

#[test]
fn car_array_keys_use_sdk_names() {
    assert_eq!(cars::CAR_IDX_LAP().name(), "CarIdxLap");
    assert_eq!(cars::CAR_IDX_LAP_COMPLETED().name(), "CarIdxLapCompleted");
    assert_eq!(cars::CAR_IDX_LAP_DIST_PCT().name(), "CarIdxLapDistPct");
    assert_eq!(cars::CAR_IDX_POSITION().name(), "CarIdxPosition");
    assert_eq!(cars::CAR_IDX_CLASS_POSITION().name(), "CarIdxClassPosition");
    assert_eq!(cars::CAR_IDX_TRACK_SURFACE().name(), "CarIdxTrackSurface");
    assert_eq!(cars::CAR_IDX_TRACK_SURFACE_MATERIAL().name(), "CarIdxTrackSurfaceMaterial");
    assert_eq!(cars::CAR_IDX_ON_PIT_ROAD().name(), "CarIdxOnPitRoad");
    assert_eq!(cars::CAR_IDX_EST_TIME().name(), "CarIdxEstTime");
    assert_eq!(cars::CAR_IDX_F2_TIME().name(), "CarIdxF2Time");
    assert_eq!(cars::CAR_IDX_GEAR().name(), "CarIdxGear");
    assert_eq!(cars::CAR_IDX_RPM().name(), "CarIdxRPM");
    assert_eq!(cars::CAR_IDX_STEER().name(), "CarIdxSteer");
    assert_eq!(cars::CAR_IDX_LAST_LAP_TIME().name(), "CarIdxLastLapTime");
    assert_eq!(cars::CAR_IDX_BEST_LAP_TIME().name(), "CarIdxBestLapTime");
    assert_eq!(cars::CAR_IDX_BEST_LAP_NUM().name(), "CarIdxBestLapNum");
    assert_eq!(cars::CAR_IDX_SESSION_FLAGS().name(), "CarIdxSessionFlags");
    assert_eq!(cars::CAR_IDX_PACE_FLAGS().name(), "CarIdxPaceFlags");
    assert_eq!(cars::CAR_IDX_PACE_LINE().name(), "CarIdxPaceLine");
    assert_eq!(cars::CAR_IDX_PACE_ROW().name(), "CarIdxPaceRow");
}

#[test]
fn weather_and_chassis_keys_use_sdk_names() {
    assert_eq!(weather::AIR_DENSITY().name(), "AirDensity");
    assert_eq!(weather::AIR_PRESSURE().name(), "AirPressure");
    assert_eq!(weather::AIR_TEMP().name(), "AirTemp");
    assert_eq!(weather::FOG_LEVEL().name(), "FogLevel");
    assert_eq!(weather::RELATIVE_HUMIDITY().name(), "RelativeHumidity");
    assert_eq!(weather::SKIES().name(), "Skies");
    assert_eq!(weather::WEATHER_TYPE().name(), "WeatherType");
    assert_eq!(weather::WEATHER_DECLARED_WET().name(), "WeatherDeclaredWet");
    assert_eq!(weather::TRACK_TEMP().name(), "TrackTemp");
    assert_eq!(weather::TRACK_TEMP_CREW().name(), "TrackTempCrew");
    assert_eq!(weather::TRACK_WETNESS().name(), "TrackWetness");
    assert_eq!(weather::WIND_DIR().name(), "WindDir");
    assert_eq!(weather::WIND_VEL().name(), "WindVel");
    assert_eq!(chassis::LAT_ACCEL().name(), "LatAccel");
    assert_eq!(chassis::LONG_ACCEL().name(), "LongAccel");
    assert_eq!(chassis::VERT_ACCEL().name(), "VertAccel");
    assert_eq!(chassis::VELOCITY_X().name(), "VelocityX");
    assert_eq!(chassis::VELOCITY_Y().name(), "VelocityY");
    assert_eq!(chassis::VELOCITY_Z().name(), "VelocityZ");
    assert_eq!(chassis::YAW().name(), "Yaw");
    assert_eq!(chassis::YAW_NORTH().name(), "YawNorth");
    assert_eq!(chassis::YAW_RATE().name(), "YawRate");
    assert_eq!(chassis::PITCH().name(), "Pitch");
    assert_eq!(chassis::PITCH_RATE().name(), "PitchRate");
    assert_eq!(chassis::ROLL().name(), "Roll");
    assert_eq!(chassis::ROLL_RATE().name(), "RollRate");
    assert_eq!(chassis::ENGINE_WARNINGS().name(), "EngineWarnings");
    assert_eq!(chassis::MANIFOLD_PRESS().name(), "ManifoldPress");
    assert_eq!(chassis::FUEL_PRESS().name(), "FuelPress");
    assert_eq!(chassis::FUEL_USE_PER_HOUR().name(), "FuelUsePerHour");
    assert_eq!(chassis::OIL_LEVEL().name(), "OilLevel");
    assert_eq!(chassis::OIL_PRESS().name(), "OilPress");
    assert_eq!(chassis::OIL_TEMP().name(), "OilTemp");
    assert_eq!(chassis::WATER_LEVEL().name(), "WaterLevel");
    assert_eq!(chassis::WATER_TEMP().name(), "WaterTemp");
    assert_eq!(chassis::VOLTAGE().name(), "Voltage");
    assert_eq!(chassis::STEERING_WHEEL_ANGLE_MAX().name(), "SteeringWheelAngleMax");
    assert_eq!(chassis::STEERING_WHEEL_TORQUE().name(), "SteeringWheelTorque");
    assert_eq!(chassis::STEERING_WHEEL_PCT_TORQUE().name(), "SteeringWheelPctTorque");
    assert_eq!(chassis::STEERING_WHEEL_PEAK_FORCE_NM().name(), "SteeringWheelPeakForceNm");
    assert_eq!(chassis::LF_SPEED().name(), "LFspeed");
    assert_eq!(chassis::RF_SPEED().name(), "RFspeed");
    assert_eq!(chassis::LR_SPEED().name(), "LRspeed");
    assert_eq!(chassis::RR_SPEED().name(), "RRspeed");
    assert_eq!(chassis::LF_TEMP_CM().name(), "LFtempCM");
    assert_eq!(chassis::RF_TEMP_CM().name(), "RFtempCM");
    assert_eq!(chassis::LR_TEMP_CM().name(), "LRtempCM");
    assert_eq!(chassis::RR_TEMP_CM().name(), "RRtempCM");
    assert_eq!(chassis::LF_SHOCK_DEFL().name(), "LFshockDefl");
    assert_eq!(chassis::RF_SHOCK_DEFL().name(), "RFshockDefl");
    assert_eq!(chassis::LR_SHOCK_DEFL().name(), "LRshockDefl");
    assert_eq!(chassis::RR_SHOCK_DEFL().name(), "RRshockDefl");
    assert_eq!(chassis::LF_SHOCK_VEL().name(), "LFshockVel");
    assert_eq!(chassis::RF_SHOCK_VEL().name(), "RFshockVel");
    assert_eq!(chassis::LR_SHOCK_VEL().name(), "LRshockVel");
    assert_eq!(chassis::RR_SHOCK_VEL().name(), "RRshockVel");
}

#[test]
fn pit_camera_and_radio_keys_use_sdk_names() {
    assert_eq!(pit::PLAYER_CAR_PIT_SV_STATUS().name(), "PlayerCarPitSvStatus");
    assert_eq!(pit::PIT_SV_FLAGS().name(), "PitSvFlags");
    assert_eq!(pit::PIT_SV_FUEL().name(), "PitSvFuel");
    assert_eq!(pit::PIT_SV_LFP().name(), "PitSvLFP");
    assert_eq!(pit::PIT_SV_RFP().name(), "PitSvRFP");
    assert_eq!(pit::PIT_SV_LRP().name(), "PitSvLRP");
    assert_eq!(pit::PIT_SV_RRP().name(), "PitSvRRP");
    assert_eq!(pit::PIT_REPAIR_LEFT().name(), "PitRepairLeft");
    assert_eq!(pit::PIT_OPT_REPAIR_LEFT().name(), "PitOptRepairLeft");
    assert_eq!(camera::CAM_CAR_IDX().name(), "CamCarIdx");
    assert_eq!(camera::CAM_CAMERA_NUMBER().name(), "CamCameraNumber");
    assert_eq!(camera::CAM_GROUP_NUMBER().name(), "CamGroupNumber");
    assert_eq!(camera::CAM_CAMERA_STATE().name(), "CamCameraState");
    assert_eq!(camera::IS_REPLAY_PLAYING().name(), "IsReplayPlaying");
    assert_eq!(camera::REPLAY_FRAME_NUM().name(), "ReplayFrameNum");
    assert_eq!(camera::REPLAY_FRAME_NUM_END().name(), "ReplayFrameNumEnd");
    assert_eq!(camera::REPLAY_PLAY_SLOW_MOTION().name(), "ReplayPlaySlowMotion");
    assert_eq!(camera::REPLAY_PLAY_SPEED().name(), "ReplayPlaySpeed");
    assert_eq!(camera::REPLAY_SESSION_NUM().name(), "ReplaySessionNum");
    assert_eq!(camera::REPLAY_SESSION_TIME().name(), "ReplaySessionTime");
    assert_eq!(radio::RADIO_TRANSMIT_CAR_IDX().name(), "RadioTransmitCarIdx");
    assert_eq!(radio::RADIO_TRANSMIT_RADIO_IDX().name(), "RadioTransmitRadioIdx");
    assert_eq!(radio::RADIO_TRANSMIT_FREQUENCY_IDX().name(), "RadioTransmitFrequencyIdx");
}

#[test]
fn nonobvious_enum_and_flag_keys_match_runtime_metadata() {
    assert_eq!(player::CAR_LEFT_RIGHT().value_type(), VariableType::BitField);
    assert_eq!(player::CAR_LEFT_RIGHT().shape(), VariableShape::Scalar);
    assert_eq!(cars::CAR_IDX_PACE_FLAGS().value_type(), VariableType::Int);
    assert_eq!(cars::CAR_IDX_PACE_FLAGS().shape(), VariableShape::Array);
}
